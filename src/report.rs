use vstd::prelude::*;

use crate::decode::ButtonLayout;

verus! {

/// One player's gamepad state as it is sent to the host.
///
/// Each axis is fully deflected one way (-127), centred (0) or fully
/// deflected the other way (127). `buttons` holds one bit per control.
#[derive(Clone, Copy, Debug)]
pub struct JoystickReport {
    pub x: i8,
    pub y: i8,
    pub buttons: [u8; 2],
}

impl PartialEq for JoystickReport {
    fn eq(&self, o: &JoystickReport) -> (r: bool) {
        let r = self.x == o.x && self.y == o.y && self.buttons[0] == o.buttons[0]
            && self.buttons[1] == o.buttons[1];
        proof {
            if r {
                assert(self.buttons@ =~= o.buttons@);
            }
        }
        r
    }
}

impl vstd::std_specs::cmp::PartialEqSpecImpl for JoystickReport {
    open spec fn obeys_eq_spec() -> bool {
        true
    }

    open spec fn eq_spec(&self, o: &JoystickReport) -> bool {
        self.x == o.x && self.y == o.y && self.buttons@ == o.buttons@
    }
}

/// An axis value that the protocol can produce.
pub open spec fn is_axis_value(v: i8) -> bool {
    v == -127 || v == 0 || v == 127
}

/// The button bits that a layout assigns to a control: the other bits of a
/// report in that layout are always clear.
pub open spec fn button_bits(layout: ButtonLayout) -> [u8; 2] {
    match layout {
        ButtonLayout::Eight => [0xFFu8, 0x00u8],
        ButtonLayout::Sixteen => [0xDBu8, 0x0Cu8],
    }
}

impl JoystickReport {
    /// Each axis at one of its three positions, and no button bit set that
    /// `layout` leaves unassigned.
    pub open spec fn is_valid(self, layout: ButtonLayout) -> bool {
        &&& is_axis_value(self.x)
        &&& is_axis_value(self.y)
        &&& self.buttons[0] & !button_bits(layout)[0] == 0
        &&& self.buttons[1] & !button_bits(layout)[1] == 0
    }

    /// The report with both axes centred and no button held.
    pub open spec fn zero() -> JoystickReport {
        JoystickReport { x: 0, y: 0, buttons: [0u8, 0u8] }
    }

    /// A centred report with no button held.
    pub fn new() -> (r: JoystickReport)
        ensures
            r == JoystickReport::zero(),
    {
        JoystickReport { x: 0, y: 0, buttons: [0, 0] }
    }

    /// Centres both axes and releases every button.
    pub fn set_zero(&mut self)
        ensures
            *final(self) == JoystickReport::zero(),
    {
        self.x = 0;
        self.y = 0;
        self.buttons = [0, 0];
    }

}

} // verus!
