//! A clock divider.
use vstd::prelude::*;
use crate::common::ResetKind;

verus! {

/// A clock divider: every `divisor` input cycles produce one output cycle.
#[derive(Debug, Clone, Copy, PartialEq, Eq, Structural)]
pub struct Divider {
    pub cycle: usize,
    pub divisor: usize,
}

impl Default for Divider {
    fn default() -> (d: Self)
        ensures
            d == (Divider { cycle: 0, divisor: 1 }),
    {
        Self { cycle: 0, divisor: 1 }
    }
}

impl Divider {
    /// Creates a divider that produces one output cycle per `divisor` input cycles.
    pub fn new(divisor: usize) -> (d: Self)
        ensures
            d == (Divider { cycle: 0, divisor }),
    {
        Self { cycle: 0, divisor }
    }

    /// Moves the input count to `cycle` and returns how many output cycles that produced,
    /// keeping the remainder for the next call.
    pub fn clock_to(&mut self, cycle: usize) -> (cycles: usize)
        requires
            old(self).divisor > 0,
        ensures
            cycles == cycle / old(self).divisor,
            final(self).cycle == cycle % old(self).divisor,
            final(self).divisor == old(self).divisor,
    {
        self.cycle = cycle;
        let mut cycles: usize = 0;
        while self.cycle >= self.divisor
            invariant
                self.divisor == old(self).divisor,
                self.divisor > 0,
                cycles * self.divisor + self.cycle == cycle,
            decreases self.cycle,
        {
            self.cycle = self.cycle - self.divisor;
            proof {
                assert(cycles * self.divisor + self.divisor <= cycle && cycles + 1 <= cycle) by (nonlinear_arith)
                    requires
                        cycles * self.divisor + self.cycle + self.divisor == cycle,
                        self.divisor > 0;
            }
            cycles = cycles + 1;
            proof {
                assert((cycles - 1) * self.divisor + self.divisor == cycles * self.divisor) by (nonlinear_arith);
            }
        }
        proof {
            let d = self.divisor as int;
            assert(cycle as int == cycles as int * d + self.cycle as int);
            vstd::arithmetic::div_mod::lemma_fundamental_div_mod_converse(
                cycle as int,
                d,
                cycles as int,
                self.cycle as int,
            );
        }
        cycles
    }

    /// Counts one input cycle, returning 1 when it completes an output cycle.
    pub fn clock(&mut self) -> (cycles: usize)
        requires
            old(self).divisor > 0,
            old(self).cycle < usize::MAX,
        ensures
            cycles == (old(self).cycle + 1) / (old(self).divisor as int),
            final(self).cycle == (old(self).cycle + 1) % (old(self).divisor as int),
            final(self).divisor == old(self).divisor,
    {
        let next = self.cycle + 1;
        self.clock_to(next)
    }

    /// Restarts the count.
    pub fn reset(&mut self, _kind: ResetKind)
        ensures
            *final(self) == (Divider { cycle: 0, ..*old(self) }),
    {
        self.cycle = 0;
    }
}

} // verus!
