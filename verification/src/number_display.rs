//! Number display: one stored word plus a signed/unsigned interpretation
//! flag. The signed interpretation reads the stored bit pattern as
//! two's complement over the word's eight bits.

use vstd::prelude::*;

use crate::machine::Word;

verus! {

/// The display's abstract state.
#[verifier::ext_equal]
pub ghost struct NumberDisplayView {
    pub signed: bool,
    pub value: Word,
    pub updated: bool,
}

impl NumberDisplayView {
    /// The displayed number: the stored word, reinterpreted as two's
    /// complement when signed mode is on.
    pub open spec fn spec_value(self) -> int {
        if self.signed && self.value >= 128 {
            self.value - 256
        } else {
            self.value as int
        }
    }

    /// The state after a reset: value zero, unsigned, marked for redisplay.
    pub open spec fn spec_clear() -> NumberDisplayView {
        NumberDisplayView { signed: false, value: 0, updated: true }
    }
}

pub struct NumberDisplay {
    pub signed: bool,

    value: Word,
    value_updated: bool,
}

impl View for NumberDisplay {
    type V = NumberDisplayView;

    closed spec fn view(&self) -> NumberDisplayView {
        NumberDisplayView { signed: self.signed, value: self.value, updated: self.value_updated }
    }
}

impl NumberDisplay {
    pub fn new() -> (result: Self)
        ensures
            result@ == NumberDisplayView::spec_clear(),
    {
        Self { signed: false, value: 0, value_updated: true }
    }

    /// The displayed number under the current interpretation.
    pub fn value(&self) -> (result: i32)
        ensures
            result as int == self@.spec_value(),
    {
        if self.signed && self.value >= 128 {
            self.value as i32 - 256
        } else {
            self.value as i32
        }
    }

    pub fn set_value(&mut self, value: Word)
        ensures
            final(self)@ == (NumberDisplayView { value: value, updated: true, ..old(self)@ }),
    {
        self.value = value;
        self.value_updated = true;
    }

    /// Same effect as `set_value`: stores the word to display.
    pub fn show(&mut self, value: Word)
        ensures
            final(self)@ == (NumberDisplayView { value: value, updated: true, ..old(self)@ }),
    {
        self.value = value;
        self.value_updated = true;
    }

    /// Zeroes the value and turns signed mode off.
    pub fn clear(&mut self)
        ensures
            final(self)@ == NumberDisplayView::spec_clear(),
    {
        self.signed = false;

        self.value = 0;
        self.value_updated = true;
    }

    pub fn signed(&self) -> (result: bool)
        ensures
            result == self@.signed,
    {
        self.signed
    }

    pub fn set_signed(&mut self, signed: bool)
        ensures
            final(self)@ == (NumberDisplayView { signed: signed, ..old(self)@ }),
    {
        self.signed = signed;
    }

    pub fn value_updated(&self) -> (result: bool)
        ensures
            result == self@.updated,
    {
        self.value_updated
    }

    pub fn disable_value_updated(&mut self)
        ensures
            final(self)@ == (NumberDisplayView { updated: false, ..old(self)@ }),
    {
        self.value_updated = false;
    }
}

} // verus!
