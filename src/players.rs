use vstd::prelude::*;

use crate::decode::{
    decoded, lemma_decoded_stays_valid, outcome_of, player_for, player_of,
    translate_receiver_payload_to_joystick_report, ButtonLayout, DecodeOutcome, Player,
};
use crate::report::JoystickReport;
use crate::xn297::RX_FRAME_WORDS;

verus! {

/// Why pushing a report to the host failed.
#[derive(Clone, Copy, Debug, PartialEq, Eq, Structural)]
pub enum PushError {
    /// The endpoint still holds the previous report; the next tick retries.
    WouldBlock,
    /// Any other transport error.
    Other,
}

/// What the poll loop does about the result of a push.
#[derive(Clone, Copy, Debug, PartialEq, Eq, Structural)]
pub enum PushReaction {
    /// Nothing: the push went out, or the transport was busy.
    Ignore,
    /// Log the error and carry on.
    Log,
}

/// How the poll loop treats the result of pushing a report: a busy transport
/// is expected and silent, any other error is logged.
pub fn react_to_push(result: Result<usize, PushError>) -> (r: PushReaction)
    ensures
        r == PushReaction::Log <==> result == Err::<usize, PushError>(PushError::Other),
{
    match result {
        Ok(_) => PushReaction::Ignore,
        Err(PushError::WouldBlock) => PushReaction::Ignore,
        Err(PushError::Other) => PushReaction::Log,
    }
}

/// The two players' reports, kept by the poll loop for the lifetime of the
/// device, and a count of the frames whose direction bits were impossible.
pub struct PlayerReports {
    pub one: JoystickReport,
    pub two: JoystickReport,
    pub layout: ButtonLayout,
    pub anomalies: u64,
}

impl PlayerReports {
    /// Both reports valid for the layout.
    pub open spec fn wf(self) -> bool {
        self.one.is_valid(self.layout) && self.two.is_valid(self.layout)
    }

    /// The report of `player`.
    pub open spec fn report_of(self, player: Player) -> JoystickReport {
        match player {
            Player::One => self.one,
            Player::Two => self.two,
        }
    }

    /// Two centred reports with no button held.
    pub fn new(layout: ButtonLayout) -> (r: PlayerReports)
        ensures
            r.one == JoystickReport::zero(),
            r.two == JoystickReport::zero(),
            r.layout == layout,
            r.anomalies == 0,
            r.wf(),
    {
        let r = PlayerReports {
            one: JoystickReport::new(),
            two: JoystickReport::new(),
            layout,
            anomalies: 0,
        };
        assert(0u8 & !0xFFu8 == 0 && 0u8 & !0xDBu8 == 0 && 0u8 & !0x0Cu8 == 0 && 0u8 & !0x00u8
            == 0) by (bit_vector);
        r
    }

    /// A copy of the report of `player`.
    pub fn report(&self, player: Player) -> (r: JoystickReport)
        ensures
            r == self.report_of(player),
    {
        match player {
            Player::One => self.one,
            Player::Two => self.two,
        }
    }

    /// Decodes a control frame into the report of the player that its first
    /// byte addresses; the other report is left alone. An impossible
    /// direction combination is counted (the count stops at its maximum).
    pub fn apply_payload(&mut self, payload: [u8; 2]) -> (r: DecodeOutcome)
        ensures
            r == outcome_of(payload[0], payload[1]),
            final(self).layout == old(self).layout,
            final(self).report_of(player_of(payload[0])) == decoded(
                old(self).report_of(player_of(payload[0])),
                payload[0],
                payload[1],
                old(self).layout,
            ),
            player_of(payload[0]) == Player::One ==> final(self).two == old(self).two,
            player_of(payload[0]) == Player::Two ==> final(self).one == old(self).one,
            final(self).anomalies == if r is ImpossibleDirections && old(self).anomalies
                < u64::MAX {
                old(self).anomalies + 1
            } else {
                old(self).anomalies as int
            },
            old(self).wf() ==> final(self).wf(),
    {
        proof {
            if self.wf() {
                lemma_decoded_stays_valid(self.one, payload[0], payload[1], self.layout);
                lemma_decoded_stays_valid(self.two, payload[0], payload[1], self.layout);
            }
        }
        let outcome = match player_for(payload[0]) {
            Player::One => translate_receiver_payload_to_joystick_report(
                payload,
                &mut self.one,
                self.layout,
            ),
            Player::Two => translate_receiver_payload_to_joystick_report(
                payload,
                &mut self.two,
                self.layout,
            ),
        };
        if let DecodeOutcome::ImpossibleDirections(_) = outcome {
            if self.anomalies < u64::MAX {
                self.anomalies = self.anomalies + 1;
            }
        }
        outcome
    }

    /// Decodes the words of a FIFO read: the first word is the device status
    /// and is passed over, the other two are the control frame.
    pub fn apply_received(&mut self, words: [u8; RX_FRAME_WORDS]) -> (r: DecodeOutcome)
        ensures
            r == outcome_of(words@[1], words@[2]),
            final(self).layout == old(self).layout,
            final(self).report_of(player_of(words@[1])) == decoded(
                old(self).report_of(player_of(words@[1])),
                words@[1],
                words@[2],
                old(self).layout,
            ),
            player_of(words@[1]) == Player::One ==> final(self).two == old(self).two,
            player_of(words@[1]) == Player::Two ==> final(self).one == old(self).one,
            final(self).anomalies == if r is ImpossibleDirections && old(self).anomalies
                < u64::MAX {
                old(self).anomalies + 1
            } else {
                old(self).anomalies as int
            },
            old(self).wf() ==> final(self).wf(),
    {
        self.apply_payload([words[1], words[2]])
    }
}

} // verus!
