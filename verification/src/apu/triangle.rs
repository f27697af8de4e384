//! Triangle channel.
use vstd::prelude::*;
use crate::apu::length_counter::{LengthCounter, length_table};
use crate::apu::timer::{Timer, tick_state};
use crate::common::ResetKind;

verus! {

/// The 32-step triangle sequence: down from 15 to 0, then back up.
pub open spec fn triangle_sequence(step: int) -> u8 {
    if step < 16 { (15 - step) as u8 } else { (step - 16) as u8 }
}

/// Linear Counter provides duration control for the triangle channel.
#[derive(Debug, Clone, Copy, PartialEq, Eq, Structural)]
pub struct LinearCounter {
    pub reload: bool,
    pub control: bool,
    pub counter_reload: u8,
    pub counter: u8,
}

impl LinearCounter {
    /// The counter after one quarter-frame clock.
    pub open spec fn clocked(self) -> LinearCounter {
        let counter = if self.reload {
            self.counter_reload
        } else if self.counter > 0 {
            (self.counter - 1) as u8
        } else {
            0
        };
        LinearCounter { counter, reload: if self.control { self.reload } else { false }, ..self }
    }

    /// A cleared counter.
    pub fn new() -> (l: Self)
        ensures
            l == (LinearCounter { reload: false, control: false, counter_reload: 0, counter: 0 }),
    {
        Self { reload: false, control: false, counter_reload: 0, counter: 0 }
    }

    /// Sets the value the counter reloads with.
    pub fn write(&mut self, val: u8)
        ensures
            *final(self) == (LinearCounter { counter_reload: val, ..*old(self) }),
    {
        self.counter_reload = val;
    }

    /// One quarter-frame: reloads while the reload flag is set, otherwise counts down; the
    /// flag clears unless the control bit holds it.
    pub fn clock(&mut self)
        ensures
            *final(self) == old(self).clocked(),
    {
        if self.reload {
            self.counter = self.counter_reload;
        } else if self.counter > 0 {
            self.counter = self.counter - 1;
        }
        if !self.control {
            self.reload = false;
        }
    }

    /// Clears the counter and its settings.
    pub fn reset(&mut self, _kind: ResetKind)
        ensures
            *final(self) == (LinearCounter { reload: false, control: false, counter_reload: 0, counter: 0 }),
    {
        self.counter = 0;
        self.counter_reload = 0;
        self.reload = false;
        self.control = false;
    }
}

/// Triangle Channel provides triangle wave generation.
#[derive(Debug, Clone, Copy, PartialEq, Eq, Structural)]
pub struct Triangle {
    pub timer: Timer,
    /// Position in the 32-step sequence.
    pub sequence: u8,
    pub length: LengthCounter,
    pub linear: LinearCounter,
    pub force_silent: bool,
}

impl Triangle {
    /// The sequence position stays within the 32 steps.
    pub open spec fn wf(&self) -> bool {
        self.sequence < 32
    }

    /// After a reset: the length and linear counters cleared and the sequence restarted.
    pub open spec fn reset_state(self) -> Triangle {
        Triangle {
            length: LengthCounter { enabled: true, counter: 0 },
            linear: LinearCounter { reload: false, control: false, counter_reload: 0, counter: 0 },
            sequence: 0,
            ..self
        }
    }

    /// After a write of `val` to the linear counter register.
    pub open spec fn linear_counter_written(self, val: u8) -> Triangle {
        Triangle {
            linear: LinearCounter { control: val & 0x80 == 0x80, counter_reload: val & 0x7F, ..self.linear },
            length: LengthCounter { enabled: val & 0x80 != 0x80, ..self.length },
            ..self
        }
    }

    /// After a write of `val` to the timer's low byte.
    pub open spec fn timer_lo_written(self, val: u8) -> Triangle {
        Triangle { timer: Timer { period: (self.timer.period & 0xFF00) | (val as u16), ..self.timer }, ..self }
    }

    /// After a write of `val` to the timer's high byte, which also loads the length and owes
    /// the linear counter a reload.
    pub open spec fn timer_hi_written(self, val: u8) -> Triangle {
        Triangle {
            length: LengthCounter { counter: length_table()[(val >> 3) as int], ..self.length },
            timer: Timer { period: (self.timer.period & 0x00FF) | (((val & 0x07) as u16) << 8), ..self.timer },
            linear: LinearCounter { reload: true, ..self.linear },
            ..self
        }
    }

    /// After `$4015` enables or disables the channel: disabling zeroes the length counter.
    pub open spec fn enabled_set(self, enabled: bool) -> Triangle {
        if enabled { self } else { Triangle { length: LengthCounter { counter: 0, ..self.length }, ..self } }
    }

    /// A silent channel.
    pub fn new() -> (t: Self)
        ensures
            t.wf(),
            t == (Triangle {
                timer: Timer { cycle: 0, counter: 0, period: 0 },
                sequence: 0,
                length: LengthCounter { enabled: false, counter: 0 },
                linear: LinearCounter { reload: false, control: false, counter_reload: 0, counter: 0 },
                force_silent: false,
            }),
    {
        Self {
            timer: Timer::new(0),
            sequence: 0,
            length: LengthCounter::new(),
            linear: LinearCounter::new(),
            force_silent: false,
        }
    }

    /// Whether the player muted the channel.
    pub fn silent(&self) -> (b: bool)
        ensures
            b == self.force_silent,
    {
        self.force_silent
    }

    /// Mutes or unmutes the channel for the player.
    pub fn set_silent(&mut self, silent: bool)
        ensures
            *final(self) == (Triangle { force_silent: silent, ..*old(self) }),
    {
        self.force_silent = silent;
    }

    /// A quarter frame clocks the linear counter.
    pub fn clock_quarter_frame(&mut self)
        ensures
            *final(self) == (Triangle { linear: old(self).linear.clocked(), ..*old(self) }),
    {
        self.linear.clock();
    }

    /// A half frame clocks the linear counter and the length counter.
    pub fn clock_half_frame(&mut self)
        ensures
            *final(self) == (Triangle { linear: old(self).linear.clocked(), length: old(self).length.clocked(), ..*old(self) }),
    {
        self.clock_quarter_frame();
        self.length.clock();
    }

    /// `$4008`: bit 7 is both the linear counter's control and the length counter's halt, bits
    /// 6..0 the linear reload value.
    pub fn write_linear_counter(&mut self, val: u8)
        ensures
            *final(self) == old(self).linear_counter_written(val),
    {
        self.linear.control = (val & 0x80) == 0x80;
        self.linear.write(val & 0x7F);
        self.length.enabled = !self.linear.control;
    }

    /// `$400A`: the low eight bits of the period.
    pub fn write_timer_lo(&mut self, val: u8)
        ensures
            *final(self) == old(self).timer_lo_written(val),
    {
        self.timer.period = (self.timer.period & 0xFF00) | (val as u16);
    }

    /// `$400B`: the length load in bits 7..3 and the high three bits of the period; sets the
    /// linear counter's reload flag.
    pub fn write_timer_hi(&mut self, val: u8)
        ensures
            *final(self) == old(self).timer_hi_written(val),
    {
        self.length.load_value(val);
        self.timer.period = (self.timer.period & 0x00FF) | (((val & 0x07) as u16) << 8);
        self.linear.reload = true;
    }

    /// `$4015`: disabling the channel zeroes its length counter.
    pub fn set_enabled(&mut self, enabled: bool)
        ensures
            *final(self) == old(self).enabled_set(enabled),
    {
        self.length.set_enabled(enabled);
    }

    /// The sequence step's level, silence when muted, and the midpoint at periods too high
    /// for the hardware's filter to pass.
    pub fn level(&self) -> (l: u8)
        requires
            self.wf(),
        ensures
            self.force_silent ==> l == 0,
            !self.force_silent && self.timer.period < 2 ==> l == 7,
            !self.force_silent && self.timer.period >= 2 ==> l == triangle_sequence(self.sequence as int),
    {
        if self.force_silent {
            0
        } else if self.timer.period < 2 {
            7
        } else if self.sequence < 16 {
            15 - self.sequence
        } else {
            self.sequence - 16
        }
    }

    /// One timer cycle; an expiry steps the sequence while both counters are running.
    pub fn clock(&mut self)
        requires
            old(self).wf(),
            old(self).timer.cycle < u32::MAX,
        ensures
            final(self).wf(),
            *final(self) == (Triangle {
                timer: tick_state(old(self).timer),
                sequence: if old(self).timer.counter == 0 && old(self).length.counter > 0 && old(self).linear.counter > 0 {
                    ((old(self).sequence + 1) % 32) as u8
                } else {
                    old(self).sequence
                },
                ..*old(self)
            }),
    {
        if self.timer.tick() && self.length.counter > 0 && self.linear.counter > 0 {
            proof {
                let s = self.sequence;
                assert(s < 32 ==> ((s + 1) as u8) & 0x1F == ((s + 1) % 32) as u8) by (bit_vector);
            }
            self.sequence = (self.sequence + 1) & 0x1F;
        }
    }

    /// Resets the counters and the sequence; the timer keeps running.
    pub fn reset(&mut self, kind: ResetKind)
        ensures
            final(self).wf(),
            *final(self) == old(self).reset_state(),
    {
        self.length.reset(kind);
        self.linear.reset(kind);
        self.sequence = 0;
    }
}

impl Default for Triangle {
    fn default() -> (t: Self)
        ensures
            t.wf(),
            t.sequence == 0,
    {
        Self::new()
    }
}

} // verus!
