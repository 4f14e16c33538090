//! `Slot<T>`: one hand-off cell. It goes from `EMPTY` (nothing written) to
//! `AVAILABLE` (a value waits) to `STOLEN` (a taker won the value).
use vstd::prelude::*;

verus! {

/// Nothing has been written.
pub const EMPTY: u8 = 0;

/// A value waits to be stolen.
pub const AVAILABLE: u8 = 1;

/// A taker has won the value.
pub const STOLEN: u8 = 2;

/// A hand-off cell.
pub struct Slot<T> {
    state: u8,
    value: Option<T>,
}

impl<T> Slot<T> {
    /// The state: `EMPTY`, `AVAILABLE` or `STOLEN`.
    pub closed spec fn state_of(&self) -> u8 {
        self.state
    }

    /// The value the slot holds, if any.
    pub closed spec fn value_of(&self) -> Option<T> {
        self.value
    }

    /// An empty slot.
    pub fn new() -> (res: Self)
        ensures
            res.state_of() == EMPTY,
            res.value_of() is None,
    {
        Slot { state: EMPTY, value: None }
    }

    /// The state.
    pub fn state(&self) -> (s: u8)
        ensures s == self.state_of(),
    {
        self.state
    }

    /// Writes `value` into an empty slot, which becomes available.
    pub fn write(&mut self, value: T)
        requires old(self).state_of() == EMPTY,
        ensures
            final(self).state_of() == AVAILABLE,
            final(self).value_of() == Some(value),
    {
        self.value = Some(value);
        self.state = AVAILABLE;
    }

    /// Claims an available value: answers whether the slot was available, in
    /// which case it is now stolen.
    pub fn try_steal(&mut self) -> (won: bool)
        ensures
            won == (old(self).state_of() == AVAILABLE),
            won ==> final(self).state_of() == STOLEN,
            !won ==> final(self).state_of() == old(self).state_of(),
            final(self).value_of() == old(self).value_of(),
    {
        if self.state == AVAILABLE {
            self.state = STOLEN;
            true
        } else {
            false
        }
    }

    /// Moves the stolen value out.
    pub fn read(&mut self) -> (v: T)
        requires
            old(self).state_of() == STOLEN,
            old(self).value_of() is Some,
        ensures
            v == old(self).value_of().unwrap(),
            final(self).state_of() == STOLEN,
            final(self).value_of() is None,
    {
        self.value.take().unwrap()
    }
}

} // verus!
