use radio_joystick::decode::{
    decode_buttons, direction_axes, player_for, translate_receiver_payload_to_joystick_report,
    ButtonLayout, DecodeOutcome, Player,
};
use radio_joystick::report::JoystickReport;

fn decode_fresh(b1: u8, b2: u8) -> (JoystickReport, DecodeOutcome) {
    let mut r = JoystickReport::new();
    let o = translate_receiver_payload_to_joystick_report([b1, b2], &mut r, ButtonLayout::Sixteen);
    (r, o)
}

/// The button packing as the gamepad drivers expect it, written with bit reversal.
fn sixteen_by_reversal(b1: u8, b2: u8) -> [u8; 2] {
    let xy = (b1 & 0b0110_0000).reverse_bits() << 2;
    let zc = (b1 & 0b0001_1000).reverse_bits() << 3;
    let ab = (!b2 & 0b1100_0000).reverse_bits();
    let ss = (!b2 & 0b0011_0000).reverse_bits();
    [xy | ab | zc, ss]
}

#[test]
fn right_frame_gives_full_right() {
    let (r, o) = decode_fresh(0x10, 0xFE);
    assert_eq!((r.x, r.y), (127, 0));
    assert_eq!(o, DecodeOutcome::Decoded);
}

#[test]
fn up_right_frame_gives_diagonal() {
    let (r, o) = decode_fresh(0x08, 0xF6);
    assert_eq!((r.x, r.y), (127, -127));
    assert_eq!(o, DecodeOutcome::Decoded);
}

#[test]
fn neutral_frame_clears_everything() {
    let mut r = JoystickReport { x: 127, y: -127, buttons: [0xDB, 0x0C] };
    let o = translate_receiver_payload_to_joystick_report([0x00, 0xFF], &mut r, ButtonLayout::Sixteen);
    assert_eq!(r, JoystickReport { x: 0, y: 0, buttons: [0, 0] });
    assert_eq!(o, DecodeOutcome::Neutral);
}

#[test]
fn player_two_neutral_frame_clears_everything() {
    for layout in [ButtonLayout::Eight, ButtonLayout::Sixteen] {
        let mut r = JoystickReport { x: -127, y: 127, buttons: [0x12, 0x04] };
        let o = translate_receiver_payload_to_joystick_report([0x80, 0xFF], &mut r, layout);
        assert_eq!(r, JoystickReport { x: 0, y: 0, buttons: [0, 0] });
        assert_eq!(o, DecodeOutcome::Neutral);
    }
}

#[test]
fn all_released_but_not_neutral_keeps_axes_centred() {
    // 0x08 in the first byte holds a button, so this is not the neutral frame.
    let mut r = JoystickReport { x: 127, y: 127, buttons: [0, 0] };
    let o = translate_receiver_payload_to_joystick_report([0x08, 0xFF], &mut r, ButtonLayout::Sixteen);
    assert_eq!(o, DecodeOutcome::Decoded);
    assert_eq!(r, JoystickReport { x: 0, y: 0, buttons: [0x80, 0] });
}

#[test]
fn direction_table_all_sixteen_nibbles() {
    let expected: [Option<(i8, i8)>; 16] = [
        Some((0, 0)),
        Some((127, 0)),
        Some((-127, 0)),
        None,
        Some((0, 127)),
        Some((127, 127)),
        Some((-127, 127)),
        None,
        Some((0, -127)),
        Some((127, -127)),
        Some((-127, -127)),
        None,
        None,
        None,
        None,
        None,
    ];
    for d in 0u8..16 {
        assert_eq!(direction_axes(d), expected[d as usize], "nibble {d:#06b}");
    }
    assert_eq!(direction_axes(0x10), None);
}

#[test]
fn impossible_directions_keep_axes_and_update_buttons() {
    for d in [0x3u8, 0x7, 0xB, 0xC, 0xD, 0xE, 0xF] {
        let b2 = !d & 0x0F | 0x30; // bits 6 and 7 held, start and select released
        let mut r = JoystickReport { x: -127, y: 127, buttons: [0, 0] };
        let o = translate_receiver_payload_to_joystick_report([0x40, b2], &mut r, ButtonLayout::Sixteen);
        assert_eq!(o, DecodeOutcome::ImpossibleDirections(d));
        assert_eq!((r.x, r.y), (-127, 127));
        assert_eq!(r.buttons, sixteen_by_reversal(0x40, b2));
    }
}

#[test]
fn decoding_twice_gives_the_same_report() {
    for (b1, b2) in [(0x10u8, 0xFEu8), (0x08, 0xF6), (0x00, 0xFF), (0x5A, 0x3C), (0x91, 0x07)] {
        for layout in [ButtonLayout::Eight, ButtonLayout::Sixteen] {
            let mut once = JoystickReport { x: 127, y: 0, buttons: [1, 2] };
            translate_receiver_payload_to_joystick_report([b1, b2], &mut once, layout);
            let mut twice = once;
            translate_receiver_payload_to_joystick_report([b1, b2], &mut twice, layout);
            assert_eq!(once, twice);
        }
    }
}

#[test]
fn sixteen_button_layout_matches_bit_reversal_everywhere() {
    for b1 in 0u8..=255 {
        for b2 in 0u8..=255 {
            assert_eq!(decode_buttons(b1, b2, ButtonLayout::Sixteen), sixteen_by_reversal(b1, b2));
        }
    }
}

#[test]
fn sixteen_button_layout_exact_values() {
    assert_eq!(decode_buttons(0x78, 0x0F, ButtonLayout::Sixteen), [0xDB, 0x0C]);
    assert_eq!(decode_buttons(0x08, 0xFF, ButtonLayout::Sixteen), [0x80, 0x00]);
    assert_eq!(decode_buttons(0x10, 0xFF, ButtonLayout::Sixteen), [0x40, 0x00]);
    assert_eq!(decode_buttons(0x20, 0xFF, ButtonLayout::Sixteen), [0x10, 0x00]);
    assert_eq!(decode_buttons(0x40, 0xFF, ButtonLayout::Sixteen), [0x08, 0x00]);
    assert_eq!(decode_buttons(0x00, 0x7F, ButtonLayout::Sixteen), [0x01, 0x00]);
    assert_eq!(decode_buttons(0x00, 0xBF, ButtonLayout::Sixteen), [0x02, 0x00]);
    assert_eq!(decode_buttons(0x00, 0xDF, ButtonLayout::Sixteen), [0x00, 0x04]);
    assert_eq!(decode_buttons(0x00, 0xEF, ButtonLayout::Sixteen), [0x00, 0x08]);
    // Direction bits and the player bit never reach the buttons.
    assert_eq!(decode_buttons(0x87, 0xF0, ButtonLayout::Sixteen), [0x00, 0x00]);
}

#[test]
fn eight_button_layout_exact_values() {
    assert_eq!(decode_buttons(0x78, 0x0F, ButtonLayout::Eight), [0xFF, 0x00]);
    assert_eq!(decode_buttons(0x08, 0xFF, ButtonLayout::Eight), [0x80, 0x00]);
    assert_eq!(decode_buttons(0x10, 0xFF, ButtonLayout::Eight), [0x40, 0x00]);
    assert_eq!(decode_buttons(0x20, 0xFF, ButtonLayout::Eight), [0x20, 0x00]);
    assert_eq!(decode_buttons(0x40, 0xFF, ButtonLayout::Eight), [0x10, 0x00]);
    assert_eq!(decode_buttons(0x00, 0xEF, ButtonLayout::Eight), [0x08, 0x00]);
    assert_eq!(decode_buttons(0x00, 0xDF, ButtonLayout::Eight), [0x04, 0x00]);
    assert_eq!(decode_buttons(0x00, 0xBF, ButtonLayout::Eight), [0x02, 0x00]);
    assert_eq!(decode_buttons(0x00, 0x7F, ButtonLayout::Eight), [0x01, 0x00]);
    assert_eq!(decode_buttons(0x87, 0xF0, ButtonLayout::Eight), [0x00, 0x00]);
}

#[test]
fn eight_button_layout_is_top_nibble_reversal() {
    for b1 in 0u8..=255 {
        for b2 in 0u8..=255 {
            let top = (b1 & 0b0111_1000).reverse_bits() << 3;
            let ab = (!b2 & 0b1100_0000).reverse_bits();
            let ss = (!b2 & 0b0011_0000).reverse_bits();
            assert_eq!(decode_buttons(b1, b2, ButtonLayout::Eight), [top | ab | ss, 0]);
        }
    }
}

#[test]
fn top_bit_selects_player() {
    assert_eq!(player_for(0x00), Player::One);
    assert_eq!(player_for(0x7F), Player::One);
    assert_eq!(player_for(0x80), Player::Two);
    assert_eq!(player_for(0xFF), Player::Two);
}
