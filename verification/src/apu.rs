//! Audio Processing Unit: the five sound channels and the units that clock them.
use vstd::prelude::*;

pub mod divider;
pub mod timer;
pub mod envelope;
pub mod length_counter;
pub mod linear_counter;
pub mod pulse;
pub mod sweep;
pub mod triangle;
pub mod noise;
pub mod dmc;
pub mod frame_counter;

use crate::apu::dmc::{dmc_period, Dmc};
use crate::apu::frame_counter::FrameCounter;
use crate::apu::noise::Noise;
use crate::apu::pulse::{OutputFreq, Pulse, PulseChannel};
use crate::apu::timer::Timer;
use crate::apu::triangle::Triangle;
use crate::common::{NesRegion, ResetKind};

verus! {

/// Error when parsing a [`Channel`] from a `usize`.
#[derive(Debug, Clone, Copy, PartialEq, Eq)]
pub struct ParseChannelError;

/// An audio channel.
#[derive(Debug, Copy, Clone, PartialEq, Eq, Structural, Hash)]
pub enum Channel {
    /// The first square-wave channel.
    Pulse1,
    /// The second square-wave channel.
    Pulse2,
    /// The triangle-wave channel.
    Triangle,
    /// The noise channel.
    Noise,
    /// The sample channel.
    Dmc,
    /// Expansion audio from the cartridge, if the board has any.
    Mapper,
}

/// The channel at a position of the order `Pulse1, Pulse2, Triangle, Noise, Dmc, Mapper`.
pub open spec fn channel_at(index: int) -> Option<Channel> {
    if index == 0 {
        Some(Channel::Pulse1)
    } else if index == 1 {
        Some(Channel::Pulse2)
    } else if index == 2 {
        Some(Channel::Triangle)
    } else if index == 3 {
        Some(Channel::Noise)
    } else if index == 4 {
        Some(Channel::Dmc)
    } else if index == 5 {
        Some(Channel::Mapper)
    } else {
        None
    }
}

impl Channel {
    /// The channel at `value` in the channel order, or an error past the last.
    pub fn try_from_index(value: usize) -> (r: Result<Channel, ParseChannelError>)
        ensures
            r matches Ok(c) ==> channel_at(value as int) == Some(c),
            r is Err <==> channel_at(value as int) is None,
    {
        match value {
            0 => Ok(Channel::Pulse1),
            1 => Ok(Channel::Pulse2),
            2 => Ok(Channel::Triangle),
            3 => Ok(Channel::Noise),
            4 => Ok(Channel::Dmc),
            5 => Ok(Channel::Mapper),
            _ => Err(ParseChannelError),
        }
    }
}

/// The APU's registers and channels: the integer state that the `$4000-$4017` writes change.
///
/// The channels are caught up to the CPU lazily, by a clock that also feeds the floating-point
/// mixer; that catch-up stands outside this type, so a register write here acts on the channels
/// as they stand.
#[derive(Debug, Clone, Copy)]
pub struct Apu {
    /// The frame sequencer that clocks envelopes, sweeps and length counters.
    pub frame_counter: FrameCounter,
    /// Total CPU cycles clocked.
    pub cpu_cycle: u32,
    /// The first square-wave channel.
    pub pulse1: Pulse,
    /// The second square-wave channel.
    pub pulse2: Pulse,
    /// The triangle-wave channel.
    pub triangle: Triangle,
    /// The noise channel.
    pub noise: Noise,
    /// The sample channel.
    pub dmc: Dmc,
    /// Whether a channel changed state and so the lazy clock must catch up.
    pub should_clock: bool,
    /// Whether cartridge expansion audio is mixed in.
    pub mapper_enabled: bool,
    /// The region the APU is timed for.
    pub region: NesRegion,
}

/// The `$4015` status bits: bits 0 to 3 for the pulse, triangle and noise channels whose length
/// counters are running, bit 4 while the DMC has bytes left, and bit 7 for the DMC's interrupt.
/// The frame counter here raises no interrupt, so bit 6 stays clear.
pub open spec fn apu_status(apu: Apu) -> u8 {
    ((if apu.pulse1.length.counter > 0 { 0x01int } else { 0 })
        + (if apu.pulse2.length.counter > 0 { 0x02int } else { 0 })
        + (if apu.triangle.length.counter > 0 { 0x04int } else { 0 })
        + (if apu.noise.length.counter > 0 { 0x08int } else { 0 })
        + (if apu.dmc.bytes_remaining > 0 { 0x10int } else { 0 })
        + (if apu.dmc.irq_pending { 0x80int } else { 0 })) as u8
}

/// A write to the channel enables keeps every channel's invariant.
proof fn lemma_status_write_keeps_wf(a: Apu, val: u8)
    requires
        a.wf(),
    ensures
        a.status_written(val).wf(),
{
    let b = a.status_written(val);
    assert(b.frame_counter == a.frame_counter);
}

impl Apu {
    /// Every channel and the frame counter keep their own invariants.
    pub open spec fn wf(&self) -> bool {
        &&& self.frame_counter.wf()
        &&& self.pulse1.wf()
        &&& self.pulse2.wf()
        &&& self.triangle.wf()
        &&& self.noise.wf()
        &&& self.dmc.wf()
    }

    /// Whether `channel` is heard: not muted by the player, or for expansion audio, mixed in.
    pub open spec fn channel_on(self, channel: Channel) -> bool {
        match channel {
            Channel::Pulse1 => !self.pulse1.force_silent,
            Channel::Pulse2 => !self.pulse2.force_silent,
            Channel::Triangle => !self.triangle.force_silent,
            Channel::Noise => !self.noise.force_silent,
            Channel::Dmc => !self.dmc.force_silent,
            Channel::Mapper => self.mapper_enabled,
        }
    }

    /// Whether `after` is `self` with `channel` heard (`on`) or muted, and nothing else changed.
    pub open spec fn channel_set(self, after: Apu, channel: Channel, on: bool) -> bool {
        &&& after.pulse1 == (if channel == Channel::Pulse1 { Pulse { force_silent: !on, ..self.pulse1 } } else { self.pulse1 })
        &&& after.pulse2 == (if channel == Channel::Pulse2 { Pulse { force_silent: !on, ..self.pulse2 } } else { self.pulse2 })
        &&& after.triangle == (if channel == Channel::Triangle { Triangle { force_silent: !on, ..self.triangle } } else { self.triangle })
        &&& after.noise == (if channel == Channel::Noise { Noise { force_silent: !on, ..self.noise } } else { self.noise })
        &&& after.dmc == (if channel == Channel::Dmc { Dmc { force_silent: !on, ..self.dmc } } else { self.dmc })
        &&& after.mapper_enabled == (if channel == Channel::Mapper { on } else { self.mapper_enabled })
        &&& after.frame_counter == self.frame_counter
        &&& after.cpu_cycle == self.cpu_cycle
        &&& after.should_clock == self.should_clock
        &&& after.region == self.region
    }

    /// After `val` is written to `channel`'s control register (`$4000`, `$4004`, `$400C`).
    pub open spec fn ctrl_written(self, channel: Channel, val: u8) -> Apu {
        match channel {
            Channel::Pulse1 => Apu { pulse1: self.pulse1.ctrl_written(val), should_clock: true, ..self },
            Channel::Pulse2 => Apu { pulse2: self.pulse2.ctrl_written(val), should_clock: true, ..self },
            _ => Apu { noise: self.noise.ctrl_written(val), should_clock: true, ..self },
        }
    }

    /// After `val` is written to a pulse channel's sweep register (`$4001`, `$4005`).
    pub open spec fn sweep_written(self, channel: Channel, val: u8) -> Apu {
        match channel {
            Channel::Pulse1 => Apu { pulse1: self.pulse1.sweep_written(val), ..self },
            _ => Apu { pulse2: self.pulse2.sweep_written(val), ..self },
        }
    }

    /// After `val` is written to `channel`'s timer low byte, or the DMC's rate (`$4002`,
    /// `$4006`, `$400A`, `$400E`, `$4010`).
    pub open spec fn timer_lo_written(self, channel: Channel, val: u8) -> Apu {
        match channel {
            Channel::Pulse1 => Apu { pulse1: self.pulse1.timer_lo_written(val), ..self },
            Channel::Pulse2 => Apu { pulse2: self.pulse2.timer_lo_written(val), ..self },
            Channel::Triangle => Apu { triangle: self.triangle.timer_lo_written(val), ..self },
            Channel::Noise => Apu { noise: self.noise.timer_written(val), ..self },
            _ => Apu { dmc: self.dmc.timer_written(val), ..self },
        }
    }

    /// After `val` is written to `channel`'s timer high byte (`$4003`, `$4007`, `$400B`); the
    /// lazy clock must catch up when the channel's length counter runs.
    pub open spec fn timer_hi_written(self, channel: Channel, val: u8) -> Apu {
        match channel {
            Channel::Pulse1 => {
                let p = self.pulse1.timer_hi_written(val);
                Apu { pulse1: p, should_clock: p.length.enabled, ..self }
            },
            Channel::Pulse2 => {
                let p = self.pulse2.timer_hi_written(val);
                Apu { pulse2: p, should_clock: p.length.enabled, ..self }
            },
            _ => {
                let t = self.triangle.timer_hi_written(val);
                Apu { triangle: t, should_clock: t.length.enabled, ..self }
            },
        }
    }

    /// After `val` is written to the triangle's linear counter (`$4008`).
    pub open spec fn linear_counter_written(self, val: u8) -> Apu {
        Apu { triangle: self.triangle.linear_counter_written(val), should_clock: true, ..self }
    }

    /// After `val` is written to `channel`'s length register (`$400F`, `$4013`).
    pub open spec fn length_written(self, channel: Channel, val: u8) -> Apu {
        match channel {
            Channel::Noise => {
                let n = self.noise.length_written(val);
                Apu { noise: n, should_clock: n.length.enabled, ..self }
            },
            _ => Apu { dmc: Dmc { sample_length: ((val as u16) * 16 + 1) as u16, ..self.dmc }, ..self },
        }
    }

    /// After `val` is written to the DMC's output level (`$4011`), of which seven bits count.
    pub open spec fn dmc_output_written(self, val: u8) -> Apu {
        Apu { dmc: Dmc { output_level: val & 0x7F, ..self.dmc }, ..self }
    }

    /// After `val` is written to the DMC's sample address (`$4012`).
    pub open spec fn dmc_addr_written(self, val: u8) -> Apu {
        Apu { dmc: Dmc { sample_addr: (0xC000 + (val as u16) * 64) as u16, ..self.dmc }, ..self }
    }

    /// After `val` is written to the channel enables (`$4015`): bits 0 to 4 enable pulse 1,
    /// pulse 2, the triangle, the noise and the DMC, and the DMC's interrupt is acknowledged.
    pub open spec fn status_written(self, val: u8) -> Apu {
        let d = self.dmc.enabled_set(val & 0x10 == 0x10, self.cpu_cycle as int);
        Apu {
            pulse1: self.pulse1.enabled_set(val & 0x01 == 0x01),
            pulse2: self.pulse2.enabled_set(val & 0x02 == 0x02),
            triangle: self.triangle.enabled_set(val & 0x04 == 0x04),
            noise: self.noise.enabled_set(val & 0x08 == 0x08),
            dmc: Dmc { irq_pending: false, ..d },
            ..self
        }
    }

    /// After `val` is written to the frame counter (`$4017`).
    pub open spec fn frame_counter_written(self, val: u8) -> Apu {
        Apu { frame_counter: self.frame_counter.written(val, self.cpu_cycle as int), ..self }
    }

    /// An APU timed for `region`, every channel silent.
    pub fn new(region: NesRegion) -> (a: Self)
        ensures
            a.wf(),
            a.cpu_cycle == 0,
            !a.should_clock,
            a.frame_counter.region == region,
            a.noise.region == region,
            a.dmc.region == region,
            a.pulse1.channel == PulseChannel::One,
            a.pulse2.channel == PulseChannel::Two,
            a.pulse1.length.counter == 0 && a.pulse2.length.counter == 0,
            a.triangle.length.counter == 0 && a.noise.length.counter == 0,
            a.dmc.bytes_remaining == 0,
            a.mapper_enabled,
            a.region == region,
            forall|c: Channel| #[trigger] a.channel_on(c),
    {
        let mut frame_counter = FrameCounter::new();
        frame_counter.set_region(region);
        Apu {
            frame_counter,
            cpu_cycle: 0,
            pulse1: Pulse::new(PulseChannel::One, OutputFreq::Default),
            pulse2: Pulse::new(PulseChannel::Two, OutputFreq::Default),
            triangle: Triangle::new(),
            noise: Noise::new(region),
            dmc: Dmc::new(region),
            should_clock: false,
            mapper_enabled: true,
            region,
        }
    }

    /// `$4000` Pulse 1, `$4004` Pulse 2 and `$400C` Noise control.
    pub fn write_ctrl(&mut self, channel: Channel, val: u8)
        requires
            old(self).wf(),
            channel == Channel::Pulse1 || channel == Channel::Pulse2 || channel == Channel::Noise,
        ensures
            final(self).wf(),
            *final(self) == old(self).ctrl_written(channel, val),
    {
        match channel {
            Channel::Pulse1 => self.pulse1.write_ctrl(val),
            Channel::Pulse2 => self.pulse2.write_ctrl(val),
            _ => self.noise.write_ctrl(val),
        }
        self.should_clock = true;
    }

    /// `$4001` Pulse 1 and `$4005` Pulse 2 sweep.
    pub fn write_sweep(&mut self, channel: Channel, val: u8)
        requires
            old(self).wf(),
            channel == Channel::Pulse1 || channel == Channel::Pulse2,
        ensures
            final(self).wf(),
            *final(self) == old(self).sweep_written(channel, val),
    {
        match channel {
            Channel::Pulse1 => self.pulse1.write_sweep(val),
            _ => self.pulse2.write_sweep(val),
        }
    }

    /// `$4002` Pulse 1, `$4006` Pulse 2, `$400A` Triangle, `$400E` Noise and `$4010` DMC timer
    /// low byte.
    pub fn write_timer_lo(&mut self, channel: Channel, val: u8)
        requires
            old(self).wf(),
            channel != Channel::Mapper,
        ensures
            final(self).wf(),
            *final(self) == old(self).timer_lo_written(channel, val),
    {
        match channel {
            Channel::Pulse1 => self.pulse1.write_timer_lo(val),
            Channel::Pulse2 => self.pulse2.write_timer_lo(val),
            Channel::Triangle => self.triangle.write_timer_lo(val),
            Channel::Noise => self.noise.write_timer(val),
            _ => self.dmc.write_timer(val),
        }
    }

    /// `$4003` Pulse 1, `$4007` Pulse 2 and `$400B` Triangle timer high byte.
    pub fn write_timer_hi(&mut self, channel: Channel, val: u8)
        requires
            old(self).wf(),
            channel == Channel::Pulse1 || channel == Channel::Pulse2 || channel == Channel::Triangle,
        ensures
            final(self).wf(),
            *final(self) == old(self).timer_hi_written(channel, val),
    {
        match channel {
            Channel::Pulse1 => {
                self.pulse1.write_timer_hi(val);
                self.should_clock = self.pulse1.length.enabled;
            },
            Channel::Pulse2 => {
                self.pulse2.write_timer_hi(val);
                self.should_clock = self.pulse2.length.enabled;
            },
            _ => {
                self.triangle.write_timer_hi(val);
                self.should_clock = self.triangle.length.enabled;
            },
        }
    }

    /// `$4008` Triangle linear counter.
    pub fn write_linear_counter(&mut self, val: u8)
        requires
            old(self).wf(),
        ensures
            final(self).wf(),
            *final(self) == old(self).linear_counter_written(val),
    {
        self.triangle.write_linear_counter(val);
        self.should_clock = true;
    }

    /// `$400F` Noise and `$4013` DMC length.
    pub fn write_length(&mut self, channel: Channel, val: u8)
        requires
            old(self).wf(),
            channel == Channel::Noise || channel == Channel::Dmc,
        ensures
            final(self).wf(),
            *final(self) == old(self).length_written(channel, val),
    {
        match channel {
            Channel::Noise => {
                self.noise.write_length(val);
                self.should_clock = self.noise.length.enabled;
            },
            _ => self.dmc.write_length(val),
        }
    }

    /// `$4011` DMC output level.
    pub fn write_dmc_output(&mut self, val: u8)
        requires
            old(self).wf(),
        ensures
            final(self).wf(),
            *final(self) == old(self).dmc_output_written(val),
    {
        self.dmc.write_output(val & 0x7F);
        proof {
            assert((val & 0x7F) & 0x7F == val & 0x7F) by (bit_vector);
        }
    }

    /// `$4012` DMC sample address.
    pub fn write_dmc_addr(&mut self, val: u8)
        requires
            old(self).wf(),
        ensures
            final(self).wf(),
            *final(self) == old(self).dmc_addr_written(val),
    {
        self.dmc.write_addr(val);
    }

    /// `$4015` channel enables.
    pub fn write_status(&mut self, val: u8)
        requires
            old(self).wf(),
        ensures
            final(self).wf(),
            *final(self) == old(self).status_written(val),
    {
        proof {
            lemma_status_write_keeps_wf(*self, val);
        }
        let mut pulse1 = self.pulse1;
        pulse1.set_enabled(val & 0x01 == 0x01);
        let mut pulse2 = self.pulse2;
        pulse2.set_enabled(val & 0x02 == 0x02);
        let mut triangle = self.triangle;
        triangle.set_enabled(val & 0x04 == 0x04);
        let mut noise = self.noise;
        noise.set_enabled(val & 0x08 == 0x08);
        let mut dmc = self.dmc;
        dmc.set_enabled(val & 0x10 == 0x10, self.cpu_cycle as usize);
        dmc.irq_pending = false;
        *self = Apu { pulse1, pulse2, triangle, noise, dmc, ..*self };
    }

    /// `$4017` frame counter.
    pub fn write_frame_counter(&mut self, val: u8)
        requires
            old(self).wf(),
        ensures
            final(self).wf(),
            *final(self) == old(self).frame_counter_written(val),
    {
        self.frame_counter.write(val, self.cpu_cycle as usize);
    }

    /// Reads the APU status without side effects.
    pub fn peek_status(&self) -> (status: u8)
        ensures
            status == apu_status(*self),
    {
        let mut status: u8 = 0x00;
        if self.pulse1.length.counter > 0 {
            status = status + 0x01;
        }
        if self.pulse2.length.counter > 0 {
            status = status + 0x02;
        }
        if self.triangle.length.counter > 0 {
            status = status + 0x04;
        }
        if self.noise.length.counter > 0 {
            status = status + 0x08;
        }
        if self.dmc.bytes_remaining > 0 {
            status = status + 0x10;
        }
        if self.dmc.irq_pending {
            status = status + 0x80;
        }
        status
    }

    /// Reads the APU status, `$4015`.
    pub fn read_status(&mut self) -> (status: u8)
        ensures
            status == apu_status(*old(self)),
            *final(self) == *old(self),
    {
        self.peek_status()
    }

    /// Resets the APU: the cycle count restarts and every channel and the frame counter reset.
    pub fn reset(&mut self, kind: ResetKind)
        requires
            old(self).wf(),
        ensures
            final(self).wf(),
            *final(self) == (Apu {
                cpu_cycle: 0,
                should_clock: false,
                frame_counter: old(self).frame_counter.reset_state(kind),
                pulse1: old(self).pulse1.reset_state(),
                pulse2: old(self).pulse2.reset_state(),
                triangle: old(self).triangle.reset_state(),
                noise: old(self).noise.reset_state(),
                dmc: old(self).dmc.reset_state(kind),
                ..*old(self)
            }),
    {
        let mut frame_counter = self.frame_counter;
        frame_counter.reset(kind);
        let mut pulse1 = self.pulse1;
        pulse1.reset(kind);
        let mut pulse2 = self.pulse2;
        pulse2.reset(kind);
        let mut triangle = self.triangle;
        triangle.reset(kind);
        let mut noise = self.noise;
        noise.reset(kind);
        let mut dmc = self.dmc;
        dmc.reset(kind);
        *self = Apu { cpu_cycle: 0, should_clock: false, frame_counter, pulse1, pulse2, triangle, noise, dmc, ..*self };
    }

    /// Whether a given channel is enabled.
    pub fn channel_enabled(&self, channel: Channel) -> (on: bool)
        ensures
            on == self.channel_on(channel),
    {
        match channel {
            Channel::Pulse1 => !self.pulse1.silent(),
            Channel::Pulse2 => !self.pulse2.silent(),
            Channel::Triangle => !self.triangle.silent(),
            Channel::Noise => !self.noise.silent(),
            Channel::Dmc => !self.dmc.silent(),
            Channel::Mapper => self.mapper_enabled,
        }
    }

    /// Enable or disable a given channel.
    pub fn set_channel_enabled(&mut self, channel: Channel, enabled: bool)
        ensures
            final(self).pulse1 == if channel == Channel::Pulse1 { Pulse { force_silent: !enabled, ..old(self).pulse1 } } else { old(self).pulse1 },
            final(self).pulse2 == if channel == Channel::Pulse2 { Pulse { force_silent: !enabled, ..old(self).pulse2 } } else { old(self).pulse2 },
            final(self).triangle == if channel == Channel::Triangle { Triangle { force_silent: !enabled, ..old(self).triangle } } else { old(self).triangle },
            final(self).noise == if channel == Channel::Noise { Noise { force_silent: !enabled, ..old(self).noise } } else { old(self).noise },
            final(self).dmc == if channel == Channel::Dmc { Dmc { force_silent: !enabled, ..old(self).dmc } } else { old(self).dmc },
            final(self).mapper_enabled == if channel == Channel::Mapper { enabled } else { old(self).mapper_enabled },
            final(self).frame_counter == old(self).frame_counter,
            final(self).cpu_cycle == old(self).cpu_cycle,
            final(self).should_clock == old(self).should_clock,
            final(self).region == old(self).region,
    {
        match channel {
            Channel::Pulse1 => self.pulse1.force_silent = !enabled,
            Channel::Pulse2 => self.pulse2.force_silent = !enabled,
            Channel::Triangle => self.triangle.force_silent = !enabled,
            Channel::Noise => self.noise.force_silent = !enabled,
            Channel::Dmc => self.dmc.force_silent = !enabled,
            Channel::Mapper => self.mapper_enabled = enabled,
        }
    }

    /// Toggle a given channel.
    pub fn toggle_channel(&mut self, channel: Channel)
        ensures
            old(self).channel_set(*final(self), channel, !old(self).channel_on(channel)),
    {
        let on = self.channel_enabled(channel);
        self.set_channel_enabled(channel, !on);
    }

    /// Re-times the APU for `region`: the frame counter's step table and the noise and DMC
    /// period tables. The same region changes nothing.
    pub fn set_region(&mut self, region: NesRegion)
        requires
            old(self).wf(),
        ensures
            final(self).wf(),
            old(self).region == region ==> *final(self) == *old(self),
            old(self).region != region ==> {
                &&& final(self).region == region
                &&& final(self).frame_counter.region == region
                &&& final(self).frame_counter.cycles == old(self).frame_counter.cycles
                &&& final(self).frame_counter.step == old(self).frame_counter.step
                &&& final(self).frame_counter.mode == old(self).frame_counter.mode
                &&& final(self).frame_counter.write_buffer == old(self).frame_counter.write_buffer
                &&& final(self).frame_counter.write_delay == old(self).frame_counter.write_delay
                &&& final(self).frame_counter.block_counter == old(self).frame_counter.block_counter
                &&& final(self).noise == (Noise { region, ..old(self).noise })
                &&& final(self).dmc == (Dmc { region, timer: Timer { period: dmc_period(region, 0), ..old(self).dmc.timer }, ..old(self).dmc })
                &&& *final(self) == (Apu {
                    region,
                    frame_counter: final(self).frame_counter,
                    noise: final(self).noise,
                    dmc: final(self).dmc,
                    ..*old(self)
                })
            },
    {
        if self.region != region {
            self.region = region;
            self.frame_counter.set_region(region);
            self.noise.set_region(region);
            self.dmc.set_region(region);
        }
    }

    /// Whether the DMC wants a sample fetched.
    pub fn dma_pending(&self) -> (b: bool)
        ensures
            b == self.dmc.dma_pending,
    {
        self.dmc.dma_pending
    }

    /// Clears the DMC's sample-fetch request, once the CPU has served it.
    pub fn clear_dma_pending(&mut self)
        ensures
            *final(self) == (Apu { dmc: Dmc { dma_pending: false, ..old(self).dmc }, ..*old(self) }),
    {
        self.dmc.dma_pending = false;
    }
}

} // verus!
