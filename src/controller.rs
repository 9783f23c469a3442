//! A standard NES controller as the CPU sees it: a button snapshot and a
//! shift register read out one bit at a time.
use vstd::prelude::*;

verus! {

#[derive(Clone, Copy, Debug, PartialEq, Eq, Structural)]
pub struct Controller {
    /// Live buttons, bit 0 first in read order (A, B, Select, Start, Up,
    /// Down, Left, Right).
    pub buttons: u8,
    /// What the next reads shift out, bit 0 first.
    pub shifter: u8,
    /// While set, the shift register follows the buttons.
    pub strobe: bool,
}

/// A strobe write: `true` latches the buttons and stays in strobe mode,
/// `false` leaves strobe mode with the shift register frozen.
pub open spec fn strobe_spec(c: Controller, enabled: bool) -> Controller {
    if enabled {
        Controller { shifter: c.buttons, strobe: true, ..c }
    } else {
        Controller { strobe: false, ..c }
    }
}

/// A read of the port: bit 0 of the shift register, which then shifts right
/// with a 1 coming in. In strobe mode the register is reloaded first and
/// stays loaded.
pub open spec fn shift_out_spec(c: Controller) -> (u8, Controller) {
    if c.strobe {
        ((c.buttons % 2) as u8, Controller { shifter: c.buttons, ..c })
    } else {
        ((c.shifter % 2) as u8, Controller { shifter: (c.shifter / 2 + 128) as u8, ..c })
    }
}

/// What a read would return, without shifting.
pub open spec fn peek_bit_spec(c: Controller) -> u8 {
    shift_out_spec(c).0
}

impl Controller {
    pub fn new() -> (c: Controller)
        ensures
            c == (Controller { buttons: 0, shifter: 0, strobe: false }),
    {
        Controller { buttons: 0, shifter: 0, strobe: false }
    }

    pub fn set_buttons(&mut self, buttons: u8)
        ensures
            *final(self) == (Controller { buttons, ..*old(self) }),
    {
        self.buttons = buttons;
    }

    pub fn strobe(&mut self, enabled: bool)
        ensures
            *final(self) == strobe_spec(*old(self), enabled),
    {
        if enabled {
            self.shifter = self.buttons;
        }
        self.strobe = enabled;
    }

    pub fn shift_out(&mut self) -> (r: u8)
        ensures
            (r, *final(self)) == shift_out_spec(*old(self)),
    {
        if self.strobe {
            self.shifter = self.buttons;
            self.buttons % 2
        } else {
            let bit = self.shifter % 2;
            self.shifter = self.shifter / 2 + 128;
            bit
        }
    }

    pub fn peek_bit(&self) -> (r: u8)
        ensures
            r == peek_bit_spec(*self),
    {
        if self.strobe {
            self.buttons % 2
        } else {
            self.shifter % 2
        }
    }
}

} // verus!
