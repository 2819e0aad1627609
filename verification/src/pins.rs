//! The digital pin bank: a fixed-size sequence of boolean logic levels.
//!
//! One pin, the designated button input, is initialized to the logical-high
//! (released) level before firmware init runs; all others default low. The
//! firmware and host both read and write through the same shared state.

use vstd::prelude::*;

use crate::fault::Fault;
use crate::{initial_pins, BUTTON_PIN, PIN_COUNT};

verus! {

/// The emulated pin bank: `PIN_COUNT` boolean levels indexed from zero.
pub struct PinBank {
    levels: Vec<bool>,
}

impl PinBank {
    /// The abstract value: one logic level per pin.
    pub closed spec fn view(&self) -> Seq<bool> {
        self.levels@
    }

    /// Well-formedness: exactly `PIN_COUNT` levels.
    pub open spec fn wf(&self) -> bool {
        self@.len() == PIN_COUNT
    }

    /// A freshly constructed bank: the button pin reads released (high),
    /// every other pin reads low.
    pub fn new() -> (r: Self)
        ensures
            r.wf(),
            r@ == initial_pins(),
    {
        let mut levels: Vec<bool> = Vec::new();
        let mut i: usize = 0;
        while i < PIN_COUNT
            invariant
                i <= PIN_COUNT,
                levels@.len() == i,
                forall|k: int| 0 <= k < i ==> levels@[k] == (k == BUTTON_PIN),
            decreases PIN_COUNT - i,
        {
            levels.push(i == BUTTON_PIN);
            i = i + 1;
        }
        proof {
            assert(levels@ =~= initial_pins());
        }
        PinBank { levels }
    }

    /// Reads the level of one pin. Out of range is a fault, exactly when the
    /// index is at or past `PIN_COUNT`.
    pub fn get(&self, index: u32) -> (r: Result<bool, Fault>)
        requires
            self.wf(),
        ensures
            match r {
                Ok(v) => index < PIN_COUNT && v == self@[index as int],
                Err(f) => index >= PIN_COUNT && f == Fault::PinIndexOutOfBounds,
            },
    {
        if (index as usize) < PIN_COUNT {
            Ok(self.levels[index as usize])
        } else {
            Err(Fault::PinIndexOutOfBounds)
        }
    }

    /// Writes the level of one pin. Succeeds exactly when the index is in
    /// range; on a fault the bank is unchanged.
    pub fn set(&mut self, index: u32, value: bool) -> (r: Result<(), Fault>)
        requires
            old(self).wf(),
        ensures
            final(self).wf(),
            match r {
                Ok(()) => index < PIN_COUNT
                    && final(self)@ == old(self)@.update(index as int, value),
                Err(f) => index >= PIN_COUNT && f == Fault::PinIndexOutOfBounds
                    && final(self)@ == old(self)@,
            },
    {
        if (index as usize) < PIN_COUNT {
            self.levels.set(index as usize, value);
            Ok(())
        } else {
            Err(Fault::PinIndexOutOfBounds)
        }
    }
}

/// Immediately after construction, every valid pin except the button pin
/// reads low, and the button pin reads released (high).
pub proof fn lemma_initial_pin_levels(i: int)
    requires
        0 <= i < PIN_COUNT,
    ensures
        i != BUTTON_PIN ==> !initial_pins()[i],
        i == BUTTON_PIN ==> initial_pins()[i],
{
}

/// Setting a pin and then reading the same pin yields the value written,
/// for every valid index and every well-formed bank state.
pub proof fn lemma_set_then_get(levels: Seq<bool>, i: int, v: bool)
    requires
        levels.len() == PIN_COUNT,
        0 <= i < PIN_COUNT,
    ensures
        levels.update(i, v)[i] == v,
{
}

} // verus!
