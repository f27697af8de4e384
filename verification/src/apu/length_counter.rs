//! Length counters, which silence a channel after a programmed duration.
use vstd::prelude::*;
use crate::common::ResetKind;

verus! {

/// The durations a length load selects, indexed by bits 7..3 of the written value.
pub open spec fn length_table() -> Seq<u8> {
    seq![
        10u8, 254, 20, 2, 40, 4, 80, 6, 160, 8, 60, 10, 14, 12, 26, 14, 12, 16, 24, 18, 48, 20, 96,
        22, 192, 24, 72, 26, 16, 28, 32, 30,
    ]
}

/// Length Counter provides duration control for the waveform channels.
#[derive(Debug, Clone, Copy, PartialEq, Eq, Structural)]
pub struct LengthCounter {
    /// Whether the counter counts down; cleared by the channel's halt bit.
    pub enabled: bool,
    /// Clocks left before the channel falls silent.
    pub counter: u8,
}

impl LengthCounter {
    /// The counter after one half-frame clock.
    pub open spec fn clocked(self) -> LengthCounter {
        if self.enabled && self.counter > 0 {
            LengthCounter { counter: (self.counter - 1) as u8, ..self }
        } else {
            self
        }
    }

    /// A halted counter at zero.
    pub fn new() -> (l: Self)
        ensures
            l == (LengthCounter { enabled: false, counter: 0 }),
    {
        Self { enabled: false, counter: 0 }
    }

    /// Clocks left.
    pub fn counter(&self) -> (c: u8)
        ensures
            c == self.counter,
    {
        self.counter
    }

    /// Loads the duration that bits 7..3 of `val` select.
    pub fn load_value(&mut self, val: u8)
        ensures
            *final(self) == (LengthCounter { counter: length_table()[(val >> 3) as int], ..*old(self) }),
    {
        let table: [u8; 32] = [
            10, 254, 20, 2, 40, 4, 80, 6, 160, 8, 60, 10, 14, 12, 26, 14, 12, 16, 24, 18, 48, 20, 96,
            22, 192, 24, 72, 26, 16, 28, 32, 30,
        ];
        proof {
            assert(table@ == length_table());
            assert(val >> 3 < 32) by (bit_vector);
        }
        self.counter = table[(val >> 3) as usize];
    }

    /// Bit 5 of a channel's control register halts the counter.
    pub fn write_ctrl(&mut self, val: u8)
        ensures
            *final(self) == (LengthCounter { enabled: (val >> 5) & 1 == 0, ..*old(self) }),
    {
        self.enabled = (val >> 5) & 1 == 0;
    }

    /// One half-frame: counts down unless halted or already at zero, returning 1 when it did.
    pub fn clock(&mut self) -> (clocked: usize)
        ensures
            *final(self) == old(self).clocked(),
            clocked == (if old(self).enabled && old(self).counter > 0 { 1usize } else { 0 }),
    {
        if self.enabled && self.counter > 0 {
            self.counter = self.counter - 1;
            1
        } else {
            0
        }
    }

    /// `$4015`: disabling a channel zeroes its counter.
    pub fn set_enabled(&mut self, enabled: bool)
        ensures
            !enabled ==> *final(self) == (LengthCounter { counter: 0, ..*old(self) }),
            enabled ==> *final(self) == *old(self),
    {
        if !enabled {
            self.counter = 0;
        }
    }

    /// Re-enables counting and clears the count.
    pub fn reset(&mut self, _kind: ResetKind)
        ensures
            *final(self) == (LengthCounter { enabled: true, counter: 0 }),
    {
        self.enabled = true;
        self.counter = 0;
    }
}

impl Default for LengthCounter {
    fn default() -> (l: Self)
        ensures
            l == (LengthCounter { enabled: false, counter: 0 }),
    {
        LengthCounter::new()
    }
}

} // verus!
