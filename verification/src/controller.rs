//! Digital controller: eight independent buttons, packed MSB-first into one
//! byte in the fixed order start, select, A, B, up, right, down, left.

use vstd::prelude::*;

use crate::machine::Word;

verus! {

/// A snapshot of the controller's button states. The machine only reads it
/// (through the port that returns the packed byte); the host sets the fields
/// between ticks.
#[derive(Clone, Copy, PartialEq, Eq, Structural, Debug)]
pub struct Controller {
    pub start: bool,
    pub select: bool,

    pub a: bool,
    pub b: bool,

    pub up: bool,
    pub right: bool,
    pub down: bool,
    pub left: bool,
}

impl Controller {
    /// All buttons released.
    pub open spec fn spec_clear() -> Controller {
        Controller {
            start: false,
            select: false,
            a: false,
            b: false,
            up: false,
            right: false,
            down: false,
            left: false,
        }
    }

    /// The packed byte: one bit per button, start in the most significant bit,
    /// left in the least significant.
    pub open spec fn spec_binary(&self) -> Word {
        (if self.start { 0x80u8 } else { 0u8 }) | (if self.select { 0x40u8 } else { 0u8 })
            | (if self.a { 0x20u8 } else { 0u8 }) | (if self.b { 0x10u8 } else { 0u8 })
            | (if self.up { 0x08u8 } else { 0u8 }) | (if self.right { 0x04u8 } else { 0u8 })
            | (if self.down { 0x02u8 } else { 0u8 }) | (if self.left { 0x01u8 } else { 0u8 })
    }

    pub fn new() -> (result: Self)
        ensures
            result == Controller::spec_clear(),
    {
        Self {
            start: false,
            select: false,

            a: false,
            b: false,

            up: false,
            right: false,
            down: false,
            left: false,
        }
    }

    /// Releases every button; used on machine reset, not on every tick.
    pub fn clear(&mut self)
        ensures
            *final(self) == Controller::spec_clear(),
    {
        self.start = false;
        self.select = false;

        self.a = false;
        self.b = false;

        self.up = false;
        self.right = false;
        self.down = false;
        self.left = false;
    }

    /// The packed button byte, as read through the controller port.
    pub fn binary(&self) -> (result: Word)
        ensures
            result == self.spec_binary(),
    {
        (if self.start { 0x80u8 } else { 0u8 }) | (if self.select { 0x40u8 } else { 0u8 })
            | (if self.a { 0x20u8 } else { 0u8 }) | (if self.b { 0x10u8 } else { 0u8 })
            | (if self.up { 0x08u8 } else { 0u8 }) | (if self.right { 0x04u8 } else { 0u8 })
            | (if self.down { 0x02u8 } else { 0u8 }) | (if self.left { 0x01u8 } else { 0u8 })
    }
}

} // verus!
