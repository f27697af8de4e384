//! The triangle channel's linear counter, as a plain register pair.
use vstd::prelude::*;

verus! {

/// Linear Counter provides duration control for the triangle channel.
#[derive(Debug, Clone, Copy, PartialEq, Eq, Structural)]
pub struct LinearCounter {
    pub reload: bool,
    pub control: bool,
    pub load: u8,
    pub counter: u8,
}

impl LinearCounter {
    /// A cleared counter.
    pub fn new() -> (l: Self)
        ensures
            l == (LinearCounter { reload: false, control: false, load: 0, counter: 0 }),
    {
        Self { reload: false, control: false, load: 0, counter: 0 }
    }

    /// Takes the reload value from bits 6..0 of `val`.
    pub fn load_value(&mut self, val: u8)
        ensures
            *final(self) == (LinearCounter { load: val & 0x7F, ..*old(self) }),
    {
        self.load = val & 0x7F;
    }
}

impl Default for LinearCounter {
    fn default() -> (l: Self)
        ensures
            l == (LinearCounter { reload: false, control: false, load: 0, counter: 0 }),
    {
        LinearCounter::new()
    }
}

} // verus!
