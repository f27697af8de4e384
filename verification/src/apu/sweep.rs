//! A standalone sweep unit, which moves a pulse period toward its target.
use vstd::prelude::*;
use crate::apu::pulse::{PulseChannel, sweep_target};
use crate::common::ResetKind;

verus! {

/// Sweep provides frequency sweeping for the pulse channels.
#[derive(Debug, Clone, Copy, PartialEq, Eq, Structural)]
pub struct Sweep {
    pub enabled: bool,
    pub channel: PulseChannel,
    /// Treats pulse channel 1 differently than pulse channel 2.
    pub negate: bool,
    pub reload: bool,
    pub shift: u8,
    pub timer: u16,
    pub divider: u8,
    pub divider_period: u8,
    pub period: u16,
    pub target_period: u16,
}

impl Sweep {
    /// The period is eleven bits and the shift three.
    pub open spec fn wf(&self) -> bool {
        self.period <= 0x7FF && self.shift <= 7
    }

    /// The target period for the current settings.
    pub open spec fn target(&self) -> u16 {
        sweep_target(self.period, self.shift, self.negate, self.channel)
    }

    /// A disabled sweep for `channel`.
    pub fn new(channel: PulseChannel) -> (s: Self)
        ensures
            s.wf(),
            s == (Sweep { enabled: false, channel, negate: false, reload: false, shift: 0, timer: 0, divider: 0, divider_period: 0, period: 0, target_period: 0 }),
    {
        Self { enabled: false, channel, negate: false, reload: false, shift: 0, timer: 0, divider: 0, divider_period: 0, period: 0, target_period: 0 }
    }

    /// Whether the sweep silences the channel: a period under 8, or a target past eleven bits
    /// when adding.
    pub fn is_muted(&self) -> (b: bool)
        ensures
            b == (self.period < 8 || (!self.negate && self.target_period > 0x7FF)),
    {
        self.period < 8 || (!self.negate && self.target_period > 0x7FF)
    }

    /// `$4001`/`$4005`: enable in bit 7, divider period in bits 6..4, negate in bit 3, shift in
    /// bits 2..0. The divider reloads on the next clock.
    pub fn write(&mut self, val: u8)
        requires
            old(self).wf(),
        ensures
            final(self).wf(),
            ({
                let s = Sweep {
                    enabled: val & 0x80 == 0x80,
                    divider_period: (((val & 0x70) >> 4) + 1) as u8,
                    negate: val & 0x08 == 0x08,
                    shift: val & 0x07,
                    ..*old(self)
                };
                *final(self) == (Sweep { target_period: s.target(), reload: true, ..s })
            }),
    {
        self.enabled = (val & 0x80) == 0x80;
        proof {
            assert((val & 0x70) >> 4 <= 7) by (bit_vector);
            assert(val & 0x07 <= 7) by (bit_vector);
        }
        self.divider_period = ((val & 0x70) >> 4) + 1;
        self.negate = (val & 0x08) == 0x08;
        self.shift = val & 0x07;
        self.update_target_period();
        self.reload = true;
    }

    /// The low eight bits of the period.
    pub fn write_timer_lo(&mut self, val: u8)
        requires
            old(self).wf(),
        ensures
            final(self).wf(),
            ({
                let s = Sweep { period: (old(self).period & 0x0700) | (val as u16), ..*old(self) };
                *final(self) == (Sweep { target_period: s.target(), ..s })
            }),
    {
        proof {
            let p = self.period;
            assert((p & 0x0700) | (val as u16) <= 0x7FF) by (bit_vector);
        }
        self.period = (self.period & 0x0700) | (val as u16);
        self.update_target_period();
    }

    /// The high three bits of the period, from bits 2..0 of `val`.
    pub fn write_timer_hi(&mut self, val: u8)
        requires
            old(self).wf(),
        ensures
            final(self).wf(),
            ({
                let s = Sweep { period: (old(self).period & 0xFF) | (((val & 0x07) as u16) << 8), ..*old(self) };
                *final(self) == (Sweep { target_period: s.target(), ..s })
            }),
    {
        proof {
            let p = self.period;
            assert((p & 0xFF) | (((val & 0x07) as u16) << 8) <= 0x7FF) by (bit_vector);
        }
        self.period = (self.period & 0xFF) | (((val & 0x07) as u16) << 8);
        self.update_target_period();
    }

    /// Recomputes the target period.
    fn update_target_period(&mut self)
        requires
            old(self).wf(),
        ensures
            *final(self) == (Sweep { target_period: old(self).target(), ..*old(self) }),
    {
        let delta = self.period >> self.shift;
        proof {
            let p = self.period;
            let s = self.shift;
            assert(p >> s <= p) by (bit_vector);
        }
        if self.negate {
            self.target_period = self.period - delta;
            if let PulseChannel::One = self.channel {
                self.target_period = self.target_period.wrapping_sub(1);
            }
        } else {
            self.target_period = self.period + delta;
        }
    }

    /// One half-frame: the divider counts down, and when it runs out an enabled sweep with a
    /// shift moves the period to an in-range target, returning 1. A pending reload restarts the
    /// divider.
    pub fn clock(&mut self) -> (clocked: usize)
        requires
            old(self).wf(),
        ensures
            final(self).wf(),
            ({
                let d = if old(self).divider == 0 { 0xFFu8 } else { (old(self).divider - 1) as u8 };
                let moves = d == 0 && old(self).shift > 0 && old(self).enabled && old(self).period >= 8
                    && old(self).target_period <= 0x7FF;
                let divider = if d == 0 || old(self).reload { old(self).divider_period } else { d };
                &&& clocked == (if moves { 1usize } else { 0 })
                &&& *final(self) == (Sweep {
                    period: if moves { old(self).target_period } else { old(self).period },
                    divider,
                    reload: false,
                    ..*old(self)
                })
            }),
    {
        self.divider = self.divider.wrapping_sub(1);
        let mut clock: usize = 0;
        if self.divider == 0 {
            if self.shift > 0 && self.enabled && self.period >= 8 && self.target_period <= 0x7FF {
                self.period = self.target_period;
                clock = 1;
            }
            self.divider = self.divider_period;
        }
        if self.reload {
            self.divider = self.divider_period;
            self.reload = false;
        }
        clock
    }

    /// Disables the sweep and recomputes the target for the period it keeps.
    pub fn reset(&mut self, _kind: ResetKind)
        requires
            old(self).wf(),
        ensures
            final(self).wf(),
            *final(self) == (Sweep {
                enabled: false, divider_period: 0, negate: false, reload: false, shift: 0, divider: 0,
                target_period: (old(self).period * 2) as u16,
                ..*old(self)
            }),
    {
        self.enabled = false;
        self.divider_period = 0;
        self.negate = false;
        self.reload = false;
        self.shift = 0;
        self.divider = 0;
        self.target_period = 0;
        proof {
            let p = self.period;
            assert(p >> 0u8 == p) by (bit_vector);
        }
        self.update_target_period();
    }
}

} // verus!
