use vstd::prelude::*;

use crate::report::JoystickReport;

verus! {

/// How button states are packed into a report.
#[derive(Clone, Copy, Debug, PartialEq, Eq, Structural)]
pub enum ButtonLayout {
    /// Eight buttons in the first byte; the second byte stays zero.
    Eight,
    /// Twelve buttons spread over both bytes, in the order that common
    /// game-controller drivers number them.
    Sixteen,
}

/// The player that a control frame is addressed to.
#[derive(Clone, Copy, Debug, PartialEq, Eq, Structural)]
pub enum Player {
    One,
    Two,
}

/// What decoding one control frame did to a report.
#[derive(Clone, Copy, Debug, PartialEq, Eq, Structural)]
pub enum DecodeOutcome {
    /// The frame was the explicit "nothing held" frame; the report was cleared.
    Neutral,
    /// Axes and buttons were taken from the frame.
    Decoded,
    /// The direction bits (given here) name no possible stick position: the
    /// axes kept their previous values, the buttons were taken from the frame.
    ImpossibleDirections(u8),
}

/// Whether bit `i` of `v` is set.
pub open spec fn bit(v: u8, i: u8) -> bool {
    (v >> i) & 1u8 == 1u8
}

/// The byte whose only set bit is `i` when `on`, zero otherwise.
pub open spec fn flag(on: bool, i: u8) -> u8 {
    if on {
        1u8 << i
    } else {
        0u8
    }
}

/// The frame that the transmitter sends when nothing is held.
pub open spec fn is_neutral_frame(byte_one: u8, byte_two: u8) -> bool {
    byte_two == 0xFF && (byte_one == 0x00 || byte_one == 0x80)
}

/// The held directions: the low nibble of the second byte, active low.
/// Bit 0 is right, bit 1 left, bit 2 down, bit 3 up.
pub open spec fn directions_of(byte_two: u8) -> u8 {
    !byte_two & 0x0F
}

/// The stick position `(x, y)` for a set of held directions, or `None` for a
/// combination that no stick can produce.
pub open spec fn axes_of(directions: u8) -> Option<(i8, i8)> {
    if directions == 0x0 {
        Some((0i8, 0i8))
    } else if directions == 0x1 {
        Some((127i8, 0i8))
    } else if directions == 0x2 {
        Some((-127i8, 0i8))
    } else if directions == 0x4 {
        Some((0i8, 127i8))
    } else if directions == 0x8 {
        Some((0i8, -127i8))
    } else if directions == 0x9 {
        Some((127i8, -127i8))
    } else if directions == 0xA {
        Some((-127i8, -127i8))
    } else if directions == 0x5 {
        Some((127i8, 127i8))
    } else if directions == 0x6 {
        Some((-127i8, 127i8))
    } else {
        None
    }
}

/// Button bytes of a frame. Bits 3 to 6 of the first byte are held high;
/// bits 4 to 7 of the second byte are held low.
pub open spec fn buttons_of(byte_one: u8, byte_two: u8, layout: ButtonLayout) -> [u8; 2] {
    match layout {
        ButtonLayout::Eight => [
            flag(bit(byte_one, 3), 7) | flag(bit(byte_one, 4), 6) | flag(bit(byte_one, 5), 5)
                | flag(bit(byte_one, 6), 4) | flag(!bit(byte_two, 4), 3) | flag(
                !bit(byte_two, 5),
                2,
            ) | flag(!bit(byte_two, 6), 1) | flag(!bit(byte_two, 7), 0),
            0u8,
        ],
        ButtonLayout::Sixteen => [
            flag(bit(byte_one, 3), 7) | flag(bit(byte_one, 4), 6) | flag(bit(byte_one, 5), 4)
                | flag(bit(byte_one, 6), 3) | flag(!bit(byte_two, 6), 1) | flag(
                !bit(byte_two, 7),
                0,
            ),
            flag(!bit(byte_two, 4), 3) | flag(!bit(byte_two, 5), 2),
        ],
    }
}

/// The report after decoding the frame `(byte_one, byte_two)` into `prior`.
pub open spec fn decoded(
    prior: JoystickReport,
    byte_one: u8,
    byte_two: u8,
    layout: ButtonLayout,
) -> JoystickReport {
    if is_neutral_frame(byte_one, byte_two) {
        JoystickReport::zero()
    } else {
        let buttons = buttons_of(byte_one, byte_two, layout);
        match axes_of(directions_of(byte_two)) {
            Some((x, y)) => JoystickReport { x, y, buttons },
            None => JoystickReport { x: prior.x, y: prior.y, buttons },
        }
    }
}

/// The outcome that decoding the frame `(byte_one, byte_two)` reports.
pub open spec fn outcome_of(byte_one: u8, byte_two: u8) -> DecodeOutcome {
    if is_neutral_frame(byte_one, byte_two) {
        DecodeOutcome::Neutral
    } else if axes_of(directions_of(byte_two)) is Some {
        DecodeOutcome::Decoded
    } else {
        DecodeOutcome::ImpossibleDirections(directions_of(byte_two))
    }
}

/// The player that a frame whose first byte is `byte_one` is addressed to.
pub open spec fn player_of(byte_one: u8) -> Player {
    if bit(byte_one, 7) {
        Player::Two
    } else {
        Player::One
    }
}

/// Picks the addressed player from the top bit of the first byte.
pub fn player_for(byte_one: u8) -> (r: Player)
    ensures
        r == player_of(byte_one),
{
    assert(bit(byte_one, 7) == (byte_one & 0x80 != 0)) by (bit_vector);
    if byte_one & 0x80 != 0 {
        Player::Two
    } else {
        Player::One
    }
}

/// Maps a set of held directions to the stick position of the table.
pub fn direction_axes(directions: u8) -> (r: Option<(i8, i8)>)
    ensures
        r == axes_of(directions),
{
    match directions {
        0b0000 => Some((0, 0)),
        0b0001 => Some((127, 0)),
        0b0010 => Some((-127, 0)),
        0b0100 => Some((0, 127)),
        0b1000 => Some((0, -127)),
        0b1001 => Some((127, -127)),
        0b1010 => Some((-127, -127)),
        0b0101 => Some((127, 127)),
        0b0110 => Some((-127, 127)),
        _ => None,
    }
}

/// Packs the buttons of a frame into report bytes.
pub fn decode_buttons(byte_one: u8, byte_two: u8, layout: ButtonLayout) -> (r: [u8; 2])
    ensures
        r == buttons_of(byte_one, byte_two, layout),
{
    let released = !byte_two;
    // Bits 3 and 4 of the first byte go to the top of the first button byte.
    let upper_pair: u8 = ((byte_one & 0x08) << 4) | ((byte_one & 0x10) << 2);
    // Bits 7 and 6 of the second byte, held low, become buttons 0 and 1.
    let low_pair: u8 = ((released & 0x80) >> 7) | ((released & 0x40) >> 5);
    // Bits 5 and 4 of the second byte, held low.
    let start_select: u8 = ((released & 0x20) >> 3) | ((released & 0x10) >> 1);
    match layout {
        ButtonLayout::Eight => {
            let lo: u8 = upper_pair | (byte_one & 0x20) | ((byte_one & 0x40) >> 2) | start_select
                | low_pair;
            assert(lo == buttons_of(byte_one, byte_two, ButtonLayout::Eight)[0]) by (bit_vector)
                requires
                    released == !byte_two,
                    upper_pair == ((byte_one & 0x08) << 4) | ((byte_one & 0x10) << 2),
                    low_pair == ((released & 0x80) >> 7) | ((released & 0x40) >> 5),
                    start_select == ((released & 0x20) >> 3) | ((released & 0x10) >> 1),
                    lo == upper_pair | (byte_one & 0x20) | ((byte_one & 0x40) >> 2) | start_select
                        | low_pair,
            ;
            let r = [lo, 0];
            assert(r =~= buttons_of(byte_one, byte_two, layout));
            r
        },
        ButtonLayout::Sixteen => {
            let lo: u8 = upper_pair | ((byte_one & 0x20) >> 1) | ((byte_one & 0x40) >> 3)
                | low_pair;
            assert(lo == buttons_of(byte_one, byte_two, ButtonLayout::Sixteen)[0]) by (bit_vector)
                requires
                    released == !byte_two,
                    upper_pair == ((byte_one & 0x08) << 4) | ((byte_one & 0x10) << 2),
                    low_pair == ((released & 0x80) >> 7) | ((released & 0x40) >> 5),
                    lo == upper_pair | ((byte_one & 0x20) >> 1) | ((byte_one & 0x40) >> 3)
                        | low_pair,
            ;
            assert(start_select == buttons_of(byte_one, byte_two, ButtonLayout::Sixteen)[1])
                by (bit_vector)
                requires
                    released == !byte_two,
                    start_select == ((released & 0x20) >> 3) | ((released & 0x10) >> 1),
            ;
            let r = [lo, start_select];
            assert(r =~= buttons_of(byte_one, byte_two, layout));
            r
        },
    }
}

/// Decodes the control frame `payload` into `report` in place.
///
/// The neutral frame clears the report. Any other frame sets the buttons and,
/// where the direction bits name a stick position, both axes; where they do
/// not, the axes keep their previous values and the outcome says so.
pub fn translate_receiver_payload_to_joystick_report(
    payload: [u8; 2],
    report: &mut JoystickReport,
    layout: ButtonLayout,
) -> (r: DecodeOutcome)
    ensures
        *final(report) == decoded(*old(report), payload[0], payload[1], layout),
        r == outcome_of(payload[0], payload[1]),
{
    let byte_one = payload[0];
    let byte_two = payload[1];
    if byte_two == 0xFF && (byte_one == 0x00 || byte_one == 0x80) {
        report.set_zero();
        return DecodeOutcome::Neutral;
    }
    let directions: u8 = !byte_two & 0x0F;
    let outcome = match direction_axes(directions) {
        Some((x, y)) => {
            report.x = x;
            report.y = y;
            DecodeOutcome::Decoded
        },
        None => DecodeOutcome::ImpossibleDirections(directions),
    };
    report.buttons = decode_buttons(byte_one, byte_two, layout);
    outcome
}

/// The direction table: nine of the sixteen direction nibbles name a stick
/// position, the other seven name none.
pub proof fn lemma_direction_table()
    ensures
        axes_of(0x0) == Some((0i8, 0i8)),
        axes_of(0x1) == Some((127i8, 0i8)),
        axes_of(0x2) == Some((-127i8, 0i8)),
        axes_of(0x4) == Some((0i8, 127i8)),
        axes_of(0x8) == Some((0i8, -127i8)),
        axes_of(0x9) == Some((127i8, -127i8)),
        axes_of(0xA) == Some((-127i8, -127i8)),
        axes_of(0x5) == Some((127i8, 127i8)),
        axes_of(0x6) == Some((-127i8, 127i8)),
        forall|d: u8|
            d < 16 && !(d == 0x0 || d == 0x1 || d == 0x2 || d == 0x4 || d == 0x8 || d == 0x9
                || d == 0xA || d == 0x5 || d == 0x6) ==> #[trigger] axes_of(d) is None,
{
}

/// A frame whose direction bits name no stick position leaves both axes as
/// they were, and the decoding reports it.
pub proof fn lemma_impossible_directions_keep_axes(
    prior: JoystickReport,
    byte_one: u8,
    byte_two: u8,
    layout: ButtonLayout,
)
    requires
        !is_neutral_frame(byte_one, byte_two),
        axes_of(directions_of(byte_two)) is None,
    ensures
        decoded(prior, byte_one, byte_two, layout).x == prior.x,
        decoded(prior, byte_one, byte_two, layout).y == prior.y,
        outcome_of(byte_one, byte_two) == DecodeOutcome::ImpossibleDirections(
            directions_of(byte_two),
        ),
{
}

/// Both neutral frames clear the report, whatever it held and whatever the
/// direction bits would otherwise say.
pub proof fn lemma_neutral_frames_clear(prior: JoystickReport, layout: ButtonLayout)
    ensures
        decoded(prior, 0x00, 0xFF, layout) == JoystickReport::zero(),
        decoded(prior, 0x80, 0xFF, layout) == JoystickReport::zero(),
        outcome_of(0x00, 0xFF) == DecodeOutcome::Neutral,
        outcome_of(0x80, 0xFF) == DecodeOutcome::Neutral,
{
}

/// Decoding the same frame a second time changes nothing: the result depends
/// on the frame alone, except for the axes kept on impossible directions,
/// and those are kept again.
pub proof fn lemma_decode_idempotent(
    prior: JoystickReport,
    byte_one: u8,
    byte_two: u8,
    layout: ButtonLayout,
)
    ensures
        decoded(decoded(prior, byte_one, byte_two, layout), byte_one, byte_two, layout)
            == decoded(prior, byte_one, byte_two, layout),
{
}

/// Decoding keeps a report valid: axes only ever take the three positions,
/// and only button bits that the layout assigns are set.
pub proof fn lemma_decoded_stays_valid(
    prior: JoystickReport,
    byte_one: u8,
    byte_two: u8,
    layout: ButtonLayout,
)
    requires
        prior.is_valid(layout),
    ensures
        decoded(prior, byte_one, byte_two, layout).is_valid(layout),
{
    match layout {
        ButtonLayout::Eight => {
            assert(buttons_of(byte_one, byte_two, ButtonLayout::Eight)[0] & !0xFFu8 == 0
                && buttons_of(byte_one, byte_two, ButtonLayout::Eight)[1] & !0x00u8 == 0)
                by (bit_vector);
        },
        ButtonLayout::Sixteen => {
            assert(buttons_of(byte_one, byte_two, ButtonLayout::Sixteen)[0] & !0xDBu8 == 0
                && buttons_of(byte_one, byte_two, ButtonLayout::Sixteen)[1] & !0x0Cu8 == 0)
                by (bit_vector);
        },
    }
    assert(0u8 & !0xFFu8 == 0 && 0u8 & !0xDBu8 == 0 && 0u8 & !0x0Cu8 == 0 && 0u8 & !0x00u8 == 0)
        by (bit_vector);
}

} // verus!
