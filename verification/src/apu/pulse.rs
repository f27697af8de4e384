//! Pulse (square wave) channel.
use vstd::prelude::*;
use crate::apu::envelope::Envelope;
use crate::apu::length_counter::{LengthCounter, length_table};
use crate::apu::timer::{Timer, tick_state};
use crate::common::ResetKind;

verus! {

/// Pulse Channel output frequency. Supports MMC5 being able to pulse at ultrasonic frequencies.
#[derive(Debug, PartialEq, Eq, Copy, Clone, Structural)]
pub enum OutputFreq {
    Default,
    Ultrasonic,
}

/// Pulse Channel selection.
#[derive(Debug, PartialEq, Eq, Copy, Clone, Structural)]
pub enum PulseChannel {
    One,
    Two,
}

/// The sweep unit's target period: the period shifted right by `shift` added to or, when
/// negating, subtracted from the period. Pulse 1 subtracts one more (ones' complement).
pub open spec fn sweep_target(period: u16, shift: u8, negate: bool, channel: PulseChannel) -> u16 {
    let delta = period >> shift;
    if negate {
        let t = (period - delta) as u16;
        if channel == PulseChannel::One {
            if t == 0 { 0xFFFFu16 } else { (t - 1) as u16 }
        } else {
            t
        }
    } else {
        (period + delta) as u16
    }
}

/// The eight-step sequences of the four duty settings.
pub open spec fn duty_table(duty: u8, step: u8) -> u8 {
    if duty == 0 {
        if step == 7 { 1 } else { 0 }
    } else if duty == 1 {
        if step >= 6 { 1 } else { 0 }
    } else if duty == 2 {
        if step >= 4 { 1 } else { 0 }
    } else {
        if step < 6 { 1 } else { 0 }
    }
}

/// How many of the eight steps of duty setting `duty` are high.
pub open spec fn duty_high_steps(duty: u8) -> int {
    duty_table(duty, 0) + duty_table(duty, 1) + duty_table(duty, 2) + duty_table(duty, 3)
        + duty_table(duty, 4) + duty_table(duty, 5) + duty_table(duty, 6) + duty_table(duty, 7)
}

/// The duty settings are the hardware's waves: 12.5%, 25%, 50% and 75% high, that is 1, 2, 4
/// and 6 of the 8 steps. Every step is high or low; in the first three settings the high steps
/// are one run that ends the sequence, and the fourth is the second turned upside down.
pub proof fn lemma_duty_cycles_are_the_hardware_waves()
    ensures
        duty_high_steps(0) == 1,
        duty_high_steps(1) == 2,
        duty_high_steps(2) == 4,
        duty_high_steps(3) == 6,
        forall|d: u8, s: u8| d < 4 && s < 8 ==> #[trigger] duty_table(d, s) <= 1,
        forall|d: u8, s: u8, t: u8| d < 3 && s <= t < 8 && #[trigger] duty_table(d, s) == 1 ==> #[trigger] duty_table(d, t) == 1,
        forall|s: u8| s < 8 ==> #[trigger] duty_table(3, s) == 1 - duty_table(1, s),
{
}

/// Sweep provides frequency sweeping for a pulse channel.
#[derive(Debug, Clone, Copy, PartialEq, Eq, Structural)]
pub struct Sweep {
    pub enabled: bool,
    pub channel: PulseChannel,
    pub negate: bool,
    pub reload: bool,
    pub shift: u8,
    pub timer: u16,
    pub divider: u8,
    pub period: u8,
    pub target_period: u16,
}

impl Sweep {
    /// A disabled sweep for `channel`.
    pub fn new(channel: PulseChannel) -> (s: Self)
        ensures
            s == (Sweep { enabled: false, channel, negate: false, reload: false, shift: 0, timer: 0, divider: 0, period: 0, target_period: 0 }),
    {
        Self { enabled: false, channel, negate: false, reload: false, shift: 0, timer: 0, divider: 0, period: 0, target_period: 0 }
    }

    /// Disables the sweep, keeping which channel it belongs to.
    pub fn reset(&mut self, _kind: ResetKind)
        ensures
            *final(self) == (Sweep { enabled: false, period: 0, negate: false, reload: false, shift: 0, divider: 0, target_period: 0, ..*old(self) }),
    {
        self.enabled = false;
        self.period = 0;
        self.negate = false;
        self.reload = false;
        self.shift = 0;
        self.divider = 0;
        self.target_period = 0;
    }
}

/// Pulse Channel provides square wave generation.
#[derive(Debug, Clone, Copy, PartialEq, Eq, Structural)]
pub struct Pulse {
    pub channel: PulseChannel,
    pub real_period: u16,
    pub timer: Timer,
    /// Which row of the duty table plays.
    pub duty: u8,
    /// Which step of the duty row plays.
    pub duty_cycle: u8,
    pub length: LengthCounter,
    pub envelope: Envelope,
    pub sweep: Sweep,
    pub force_silent: bool,
    pub output_freq: OutputFreq,
}

impl Pulse {
    /// The registers keep their hardware widths.
    pub open spec fn wf(&self) -> bool {
        &&& self.real_period <= 0x7FF
        &&& self.duty <= 3
        &&& self.duty_cycle <= 7
        &&& self.sweep.shift <= 7
        &&& self.envelope.wf()
    }

    /// The target period for the current period and sweep settings.
    pub open spec fn target(&self) -> u16 {
        sweep_target(self.real_period, self.sweep.shift, self.sweep.negate, self.channel)
    }

    /// The channel after its period is set to `period`: the timer runs at twice it, plus one.
    pub open spec fn with_period(self, period: u16) -> Pulse {
        let p = Pulse { real_period: period, timer: Timer { period: (period * 2 + 1) as u16, ..self.timer }, ..self };
        Pulse { sweep: Sweep { target_period: p.target(), ..p.sweep }, ..p }
    }

    /// The channel after one clock of the sweep unit.
    pub open spec fn swept(self) -> Pulse {
        let d = if self.sweep.divider == 0 { 0xFFu8 } else { (self.sweep.divider - 1) as u8 };
        let moves = d == 0 && self.sweep.shift > 0 && self.sweep.enabled && self.real_period >= 8
            && self.sweep.target_period <= 0x7FF;
        let p = if moves { self.with_period(self.sweep.target_period) } else { self };
        let divider = if d == 0 || self.sweep.reload { self.sweep.period } else { d };
        Pulse { sweep: Sweep { divider, reload: false, ..p.sweep }, ..p }
    }

    /// After a reset: the timer, length counter, duty and envelope cleared and the sweep unit
    /// off, its target recomputed from the kept period.
    pub open spec fn reset_state(self) -> Pulse {
        Pulse {
            timer: Timer { cycle: 0, counter: 0, period: 0 },
            length: LengthCounter { enabled: true, counter: 0 },
            duty: 0,
            duty_cycle: 0,
            sweep: Sweep {
                enabled: false, period: 0, negate: false, reload: false, shift: 0, divider: 0,
                target_period: (self.real_period * 2) as u16,
                ..self.sweep
            },
            envelope: Envelope { start: false, constant_volume: false, volume: 0, divider: 0, counter: 0, loops: self.envelope.loops },
            ..self
        }
    }

    /// After a write of `val` to the control register.
    pub open spec fn ctrl_written(self, val: u8) -> Pulse {
        Pulse {
            length: LengthCounter { enabled: (val >> 5) & 1 == 0, ..self.length },
            envelope: Envelope {
                loops: val & 0x20 == 0x20,
                constant_volume: val & 0x10 == 0x10,
                volume: val & 0x0F,
                ..self.envelope
            },
            duty: (val & 0xC0) >> 6,
            ..self
        }
    }

    /// After a write of `val` to the sweep register: the new settings, the target period they
    /// give, and a reload owed to the divider.
    pub open spec fn sweep_written(self, val: u8) -> Pulse {
        let s = Sweep {
            enabled: val & 0x80 == 0x80,
            negate: val & 0x08 == 0x08,
            period: (((val & 0x70) >> 4) + 1) as u8,
            shift: val & 0x07,
            ..self.sweep
        };
        let p = Pulse { sweep: s, ..self };
        Pulse { sweep: Sweep { target_period: p.target(), reload: true, ..s }, ..p }
    }

    /// After a write of `val` to the timer's low byte.
    pub open spec fn timer_lo_written(self, val: u8) -> Pulse {
        self.with_period((self.real_period & 0x0700) | (val as u16))
    }

    /// After a write of `val` to the timer's high byte: the length loaded, the period's high
    /// bits set, and the duty sequence and the envelope restarted.
    pub open spec fn timer_hi_written(self, val: u8) -> Pulse {
        let loaded = Pulse { length: LengthCounter { counter: length_table()[(val >> 3) as int], ..self.length }, ..self };
        let p = loaded.with_period((self.real_period & 0xFF) | (((val & 0x07) as u16) << 8));
        Pulse { duty_cycle: 0, envelope: Envelope { start: true, ..p.envelope }, ..p }
    }

    /// After `$4015` enables or disables the channel: disabling zeroes the length counter.
    pub open spec fn enabled_set(self, enabled: bool) -> Pulse {
        if enabled { self } else { Pulse { length: LengthCounter { counter: 0, ..self.length }, ..self } }
    }

    /// Whether the channel outputs silence.
    pub open spec fn spec_is_muted(&self) -> bool {
        (self.output_freq == OutputFreq::Default && (self.real_period < 8 || (!self.sweep.negate
            && self.sweep.target_period > 0x7FF))) || self.force_silent
    }

    /// The channel's volume: the envelope's, while the length counter runs.
    pub open spec fn spec_volume(&self) -> u8 {
        if self.length.counter > 0 { self.envelope.spec_volume() } else { 0 }
    }

    /// The raw output level.
    pub open spec fn spec_level(&self) -> int {
        if self.spec_is_muted() { 0 } else { duty_table(self.duty, self.duty_cycle) * self.spec_volume() }
    }

    /// A silent channel.
    pub fn new(channel: PulseChannel, output_freq: OutputFreq) -> (p: Self)
        ensures
            p.wf(),
            p == (Pulse {
                channel,
                real_period: 0,
                timer: Timer { cycle: 0, counter: 0, period: 0 },
                duty: 0,
                duty_cycle: 0,
                length: LengthCounter { enabled: false, counter: 0 },
                envelope: Envelope { start: false, constant_volume: false, volume: 0, divider: 0, counter: 0, loops: false },
                sweep: Sweep { enabled: false, channel, negate: false, reload: false, shift: 0, timer: 0, divider: 0, period: 0, target_period: 0 },
                force_silent: false,
                output_freq,
            }),
    {
        Self {
            channel,
            real_period: 0,
            timer: Timer::new(0),
            duty: 0,
            duty_cycle: 0,
            length: LengthCounter::new(),
            envelope: Envelope::new(),
            sweep: Sweep::new(channel),
            force_silent: false,
            output_freq,
        }
    }

    /// Whether the channel outputs silence: a period too low, a sweep target too high (except at
    /// ultrasonic frequencies), or muted by the player.
    pub fn is_muted(&self) -> (b: bool)
        ensures
            b == self.spec_is_muted(),
    {
        self.output_freq == OutputFreq::Default && (self.real_period < 8 || (!self.sweep.negate
            && self.sweep.target_period > 0x7FF)) || self.silent()
    }

    /// Whether the player muted the channel.
    pub fn silent(&self) -> (b: bool)
        ensures
            b == self.force_silent,
    {
        self.force_silent
    }

    /// Mutes or unmutes the channel for the player.
    pub fn set_silent(&mut self, silent: bool)
        ensures
            *final(self) == (Pulse { force_silent: silent, ..*old(self) }),
    {
        self.force_silent = silent;
    }

    /// Recomputes the sweep's target period.
    fn update_target_period(&mut self)
        requires
            old(self).wf(),
        ensures
            *final(self) == (Pulse { sweep: Sweep { target_period: old(self).target(), ..old(self).sweep }, ..*old(self) }),
    {
        let delta = self.real_period >> self.sweep.shift;
        proof {
            let p = self.real_period;
            let s = self.sweep.shift;
            assert(p >> s <= p) by (bit_vector);
        }
        if self.sweep.negate {
            self.sweep.target_period = self.real_period - delta;
            if let PulseChannel::One = self.channel {
                self.sweep.target_period = self.sweep.target_period.wrapping_sub(1);
            }
        } else {
            self.sweep.target_period = self.real_period + delta;
        }
    }

    /// Sets the period, which the timer runs at twice of, plus one.
    fn set_period(&mut self, period: u16)
        requires
            old(self).wf(),
            period <= 0x7FF,
        ensures
            *final(self) == old(self).with_period(period),
            final(self).wf(),
    {
        self.real_period = period;
        self.timer.period = (period * 2) + 1;
        self.update_target_period();
    }

    /// Clocks the sweep divider; when it runs out, an enabled sweep with a shift moves the period
    /// to the target, unless that would silence the channel.
    fn clock_sweep(&mut self)
        requires
            old(self).wf(),
        ensures
            final(self).wf(),
            *final(self) == old(self).swept(),
    {
        self.sweep.divider = self.sweep.divider.wrapping_sub(1);
        if self.sweep.divider == 0 {
            if self.sweep.shift > 0 && self.sweep.enabled && self.real_period >= 8
                && self.sweep.target_period <= 0x7FF {
                let target = self.sweep.target_period;
                self.set_period(target);
            }
            self.sweep.divider = self.sweep.period;
        }
        if self.sweep.reload {
            self.sweep.divider = self.sweep.period;
            self.sweep.reload = false;
        }
    }

    /// A quarter frame clocks the envelope.
    pub fn clock_quarter_frame(&mut self)
        requires
            old(self).wf(),
        ensures
            final(self).wf(),
            *final(self) == (Pulse { envelope: old(self).envelope.clocked(), ..*old(self) }),
    {
        let _ = self.envelope.clock();
    }

    /// A half frame clocks the envelope, the length counter and the sweep.
    pub fn clock_half_frame(&mut self)
        requires
            old(self).wf(),
        ensures
            final(self).wf(),
            *final(self) == (Pulse { envelope: old(self).envelope.clocked(), length: old(self).length.clocked(), ..*old(self) }).swept(),
    {
        self.clock_quarter_frame();
        self.length.clock();
        self.clock_sweep();
    }

    /// `$4000`/`$4004`: duty in bits 7..6, length halt in bit 5, envelope in bits 5..0.
    pub fn write_ctrl(&mut self, val: u8)
        requires
            old(self).wf(),
        ensures
            final(self).wf(),
            *final(self) == old(self).ctrl_written(val),
    {
        self.length.write_ctrl(val);
        self.envelope.write_ctrl(val);
        self.duty = (val & 0xC0) >> 6;
        proof {
            assert((val & 0xC0) >> 6 <= 3) by (bit_vector);
        }
    }

    /// `$4001`/`$4005`: sweep enable in bit 7, divider period in bits 6..4, negate in bit 3 and
    /// shift in bits 2..0. The divider reloads on the next half frame.
    pub fn write_sweep(&mut self, val: u8)
        requires
            old(self).wf(),
        ensures
            final(self).wf(),
            *final(self) == old(self).sweep_written(val),
    {
        self.sweep.enabled = (val & 0x80) == 0x80;
        self.sweep.negate = (val & 0x08) == 0x08;
        proof {
            assert((val & 0x70) >> 4 <= 7) by (bit_vector);
            assert(val & 0x07 <= 7) by (bit_vector);
        }
        self.sweep.period = ((val & 0x70) >> 4) + 1;
        self.sweep.shift = val & 0x07;
        self.update_target_period();
        self.sweep.reload = true;
    }

    /// `$4002`/`$4006`: the low eight bits of the period.
    pub fn write_timer_lo(&mut self, val: u8)
        requires
            old(self).wf(),
        ensures
            final(self).wf(),
            *final(self) == old(self).timer_lo_written(val),
    {
        let period = self.real_period & 0x0700 | (val as u16);
        proof {
            let p = self.real_period;
            assert((p & 0x0700) | (val as u16) <= 0x7FF) by (bit_vector);
        }
        self.set_period(period);
    }

    /// `$4003`/`$4007`: the length load in bits 7..3 and the high three bits of the period.
    /// Restarts the duty sequence and the envelope, but leaves the timer counting.
    pub fn write_timer_hi(&mut self, val: u8)
        requires
            old(self).wf(),
        ensures
            final(self).wf(),
            *final(self) == old(self).timer_hi_written(val),
    {
        self.length.load_value(val);
        let period = self.real_period & 0xFF | ((val & 0x07) as u16) << 8;
        proof {
            let p = self.real_period;
            assert((p & 0xFF) | (((val & 0x07) as u16) << 8) <= 0x7FF) by (bit_vector);
        }
        self.set_period(period);
        self.duty_cycle = 0;
        self.envelope.restart();
    }

    /// `$4015`: disabling the channel zeroes its length counter.
    pub fn set_enabled(&mut self, enabled: bool)
        ensures
            *final(self) == old(self).enabled_set(enabled),
    {
        self.length.set_enabled(enabled);
    }

    /// The envelope's volume while the length counter runs, silence after.
    pub fn volume(&self) -> (v: u8)
        requires
            self.wf(),
        ensures
            v == self.spec_volume(),
            v <= 15,
    {
        if self.length.counter > 0 {
            self.envelope.volume()
        } else {
            0
        }
    }

    /// Raw channel level, 0-15: the duty step times the volume, unless muted.
    pub fn level(&self) -> (l: u8)
        requires
            self.wf(),
        ensures
            l == self.spec_level(),
            l <= 15,
    {
        if self.is_muted() {
            0
        } else {
            let bit = Self::duty_bit(self.duty, self.duty_cycle);
            let v = self.volume();
            bit * v
        }
    }

    /// One step of the duty table.
    fn duty_bit(duty: u8, step: u8) -> (b: u8)
        requires
            duty <= 3,
            step <= 7,
        ensures
            b == duty_table(duty, step),
            b <= 1,
    {
        let table: [[u8; 8]; 4] = [
            [0, 0, 0, 0, 0, 0, 0, 1],
            [0, 0, 0, 0, 0, 0, 1, 1],
            [0, 0, 0, 0, 1, 1, 1, 1],
            [1, 1, 1, 1, 1, 1, 0, 0],
        ];
        let row = table[duty as usize];
        let b = row[step as usize];
        proof {
            assert(table@[0]@ == seq![0u8, 0, 0, 0, 0, 0, 0, 1]);
            assert(table@[1]@ == seq![0u8, 0, 0, 0, 0, 0, 1, 1]);
            assert(table@[2]@ == seq![0u8, 0, 0, 0, 1, 1, 1, 1]);
            assert(table@[3]@ == seq![1u8, 1, 1, 1, 1, 1, 0, 0]);
        }
        b
    }

    /// The timer's cycle count.
    pub fn cycle(&self) -> (c: u32)
        ensures
            c == self.timer.cycle,
    {
        self.timer.cycle
    }

    /// One timer cycle; an expiry steps the duty sequence backwards.
    pub fn clock(&mut self)
        requires
            old(self).wf(),
            old(self).timer.cycle < u32::MAX,
        ensures
            final(self).wf(),
            *final(self) == (Pulse {
                timer: tick_state(old(self).timer),
                duty_cycle: if old(self).timer.counter == 0 {
                    if old(self).duty_cycle == 0 { 7u8 } else { (old(self).duty_cycle - 1) as u8 }
                } else {
                    old(self).duty_cycle
                },
                ..*old(self)
            }),
    {
        if self.timer.tick() {
            proof {
                let d = self.duty_cycle;
                assert(d <= 7 ==> (d.wrapping_sub(1) & 0x07) == (if d == 0 { 7u8 } else { (d - 1) as u8 })) by (bit_vector);
            }
            self.duty_cycle = self.duty_cycle.wrapping_sub(1) & 0x07;
        }
    }

    /// Resets the timer, counters, envelope and sweep, and restarts the duty sequence.
    pub fn reset(&mut self, kind: ResetKind)
        requires
            old(self).wf(),
        ensures
            final(self).wf(),
            final(self).timer == (Timer { cycle: 0, counter: 0, period: 0 }),
            final(self).length == (LengthCounter { enabled: true, counter: 0 }),
            final(self).duty == 0,
            final(self).duty_cycle == 0,
            final(self).real_period == old(self).real_period,
            final(self).sweep == (Sweep {
                enabled: false, period: 0, negate: false, reload: false, shift: 0, divider: 0,
                target_period: (old(self).real_period * 2) as u16,
                ..old(self).sweep
            }),
            final(self).envelope == (Envelope { start: false, constant_volume: false, volume: 0, divider: 0, counter: 0, loops: old(self).envelope.loops }),
            final(self).force_silent == old(self).force_silent,
            final(self).channel == old(self).channel,
            final(self).output_freq == old(self).output_freq,
            *final(self) == old(self).reset_state(),
    {
        self.timer.reset(kind);
        self.length.reset(kind);
        self.envelope.reset(kind);
        self.sweep.reset(kind);
        proof {
            let p = self.real_period;
            assert(p >> 0u8 == p) by (bit_vector);
        }
        self.update_target_period();
        self.duty = 0;
        self.duty_cycle = 0;
    }
}

impl Default for Pulse {
    fn default() -> (p: Self)
        ensures
            p.wf(),
            p.channel == PulseChannel::One,
            p.output_freq == OutputFreq::Default,
    {
        Self::new(PulseChannel::One, OutputFreq::Default)
    }
}

} // verus!
