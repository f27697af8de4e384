//! Delta modulation channel, which plays 1-bit delta-encoded samples fetched by DMA.
use vstd::prelude::*;
use crate::apu::timer::{Timer, tick_state};
use crate::common::{NesRegion, ResetKind};

verus! {

/// The timer period that a `$4010` write selects with its low nibble, one less than the number of
/// CPU cycles between output bits. An undetected region uses the NTSC table.
pub open spec fn dmc_period(region: NesRegion, index: int) -> u16 {
    let ntsc = seq![428u16, 380, 340, 320, 286, 254, 226, 214, 190, 160, 142, 128, 106, 84, 72, 54];
    let pal = seq![398u16, 354, 316, 298, 276, 236, 210, 198, 176, 148, 132, 118, 98, 78, 66, 50];
    if region == NesRegion::Pal { (pal[index] - 1) as u16 } else { (ntsc[index] - 1) as u16 }
}

/// DMC (Delta Modulation Channel) provides sample playback.
///
/// The channel signals the CPU through two flags it raises here and the console clears: an
/// interrupt when a non-looping sample ends with interrupts enabled, and a pending DMA fetch when
/// its one-byte buffer needs refilling.
#[derive(Debug, Clone, Copy, PartialEq, Eq, Structural)]
pub struct Dmc {
    pub region: NesRegion,
    pub timer: Timer,
    pub force_silent: bool,
    pub irq_enabled: bool,
    pub loops: bool,
    pub addr: u16,
    pub sample_addr: u16,
    pub bytes_remaining: u16,
    pub sample_length: u16,
    pub sample_buffer: u8,
    pub buffer_empty: bool,
    pub init: u8,
    pub output_level: u8,
    pub bits_remaining: u8,
    pub shift: u8,
    pub silence: bool,
    pub should_clock: bool,
    /// The channel's interrupt line.
    pub irq_pending: bool,
    /// A sample byte is waiting to be fetched by DMA.
    pub dma_pending: bool,
}

impl Dmc {
    /// The output level is seven bits and a byte holds at most eight bits to play.
    pub open spec fn wf(&self) -> bool {
        self.output_level <= 127 && self.bits_remaining <= 8
    }

    /// The channel after a sample (re)starts from the sample registers.
    pub open spec fn started(self) -> Dmc {
        Dmc { addr: self.sample_addr, bytes_remaining: self.sample_length, should_clock: self.sample_length > 0, ..self }
    }

    /// After a write of `val` to the rate and flags register.
    pub open spec fn timer_written(self, val: u8) -> Dmc {
        Dmc {
            irq_enabled: val & 0x80 == 0x80,
            loops: val & 0x40 == 0x40,
            timer: Timer { period: dmc_period(self.region, (val % 16) as int), ..self.timer },
            irq_pending: if val & 0x80 == 0x80 { self.irq_pending } else { false },
            ..self
        }
    }

    /// After `$4015` enables or disables the channel on `cycle`.
    pub open spec fn enabled_set(self, enabled: bool, cycle: int) -> Dmc {
        if !enabled {
            Dmc { bytes_remaining: 0, should_clock: false, ..self }
        } else if self.bytes_remaining == 0 {
            Dmc { init: if cycle % 2 == 0 { 2u8 } else { 3 }, ..self.started() }
        } else {
            self
        }
    }

    /// After a reset of `kind`: a hard reset also forgets the sample registers.
    pub open spec fn reset_state(self, kind: ResetKind) -> Dmc {
        Dmc {
            timer: Timer { cycle: 1, counter: dmc_period(self.region, 0), period: dmc_period(self.region, 0) },
            sample_addr: if kind == ResetKind::Hard { 0xC000u16 } else { self.sample_addr },
            sample_length: if kind == ResetKind::Hard { 1u16 } else { self.sample_length },
            irq_enabled: false,
            loops: false,
            addr: 0,
            bytes_remaining: 0,
            sample_buffer: 0,
            buffer_empty: true,
            output_level: 0,
            bits_remaining: 8,
            shift: 0,
            silence: true,
            should_clock: false,
            ..self
        }
    }

    /// The channel after a DMA delivers `val`: with bytes left, it fills the buffer and steps the
    /// address, wrapping from `$FFFF` to `$8000`, and the last byte of a sample restarts it when
    /// looping, or raises the interrupt when enabled. With none left, nothing changes.
    pub open spec fn loaded(self, val: u8) -> Dmc {
        if self.bytes_remaining == 0 {
            self
        } else {
            let next = Dmc {
                sample_buffer: val,
                buffer_empty: false,
                addr: if self.addr == 0xFFFF { 0x8000u16 } else { (self.addr + 1) as u16 },
                bytes_remaining: (self.bytes_remaining - 1) as u16,
                ..self
            };
            if next.bytes_remaining > 0 {
                next
            } else if next.loops {
                (Dmc { should_clock: false, ..next }).started()
            } else {
                Dmc { should_clock: false, irq_pending: next.irq_pending || next.irq_enabled, ..next }
            }
        }
    }

    /// A silent channel for `region`.
    pub fn new(region: NesRegion) -> (d: Self)
        ensures
            d.wf(),
            d == (Dmc {
                region,
                timer: Timer { cycle: 0, counter: dmc_period(region, 0), period: dmc_period(region, 0) },
                force_silent: false,
                irq_enabled: false,
                loops: false,
                addr: 0xC000,
                sample_addr: 0,
                bytes_remaining: 0,
                sample_length: 1,
                sample_buffer: 0,
                buffer_empty: true,
                init: 0,
                output_level: 0,
                bits_remaining: 8,
                shift: 0,
                silence: true,
                should_clock: false,
                irq_pending: false,
                dma_pending: false,
            }),
    {
        Self {
            region,
            timer: Timer::preload(Self::period(region, 0)),
            force_silent: false,
            irq_enabled: false,
            loops: false,
            addr: 0xC000,
            sample_addr: 0x0000,
            bytes_remaining: 0x0000,
            sample_length: 0x0001,
            sample_buffer: 0x00,
            buffer_empty: true,
            init: 0,
            output_level: 0x00,
            bits_remaining: 0x08,
            shift: 0x00,
            silence: true,
            should_clock: false,
            irq_pending: false,
            dma_pending: false,
        }
    }

    /// Whether the player muted the channel.
    pub fn silent(&self) -> (b: bool)
        ensures
            b == self.force_silent,
    {
        self.force_silent
    }

    /// Mutes or unmutes the channel for the player.
    pub fn set_silent(&mut self, silent: bool)
        ensures
            *final(self) == (Dmc { force_silent: silent, ..*old(self) }),
    {
        self.force_silent = silent;
    }

    /// Whether the sample will run out, raising an interrupt, within `cycles_to_run` cycles.
    pub fn irq_pending_in(&self, cycles_to_run: usize) -> (b: bool)
        ensures
            b <==> (self.irq_enabled && self.bytes_remaining > 0 && cycles_to_run
                >= (self.bits_remaining + (self.bytes_remaining - 1) * 8) * self.timer.period),
    {
        if self.irq_enabled && self.bytes_remaining > 0 {
            let bits = self.bits_remaining as u64 + (self.bytes_remaining as u64 - 1) * 8;
            proof {
                assert(bits * (self.timer.period as u64) <= 600000 * 65536) by (nonlinear_arith)
                    requires bits <= 600000, self.timer.period <= 65535;
            }
            let cycles_to_empty = bits * self.timer.period as u64;
            cycles_to_run as u64 >= cycles_to_empty
        } else {
            false
        }
    }

    /// The address the next sample byte is fetched from.
    pub fn dma_addr(&self) -> (a: u16)
        ensures
            a == self.addr,
    {
        self.addr
    }

    /// Restarts the sample from the address and length registers.
    fn init_sample(&mut self)
        ensures
            *final(self) == old(self).started(),
    {
        self.addr = self.sample_addr;
        self.bytes_remaining = self.sample_length;
        self.should_clock = self.bytes_remaining > 0;
    }

    /// Accepts the byte a DMA fetched: fills the buffer and steps the address, wrapping from
    /// `$FFFF` to `$8000`. The last byte of a sample restarts it when looping, or raises the
    /// interrupt when enabled.
    pub fn load_buffer(&mut self, val: u8)
        ensures
            *final(self) == old(self).loaded(val),
    {
        if self.bytes_remaining > 0 {
            self.sample_buffer = val;
            self.buffer_empty = false;
            if self.addr == 0xFFFF {
                self.addr = 0x8000;
            } else {
                self.addr = self.addr + 1;
            }
            self.bytes_remaining = self.bytes_remaining - 1;
            if self.bytes_remaining == 0 {
                self.should_clock = false;
                if self.loops {
                    self.init_sample();
                } else if self.irq_enabled {
                    self.irq_pending = true;
                }
            }
        }
    }

    /// The timer period the low nibble of `val` selects in `region`.
    fn period(region: NesRegion, val: u8) -> (p: u16)
        ensures
            p == dmc_period(region, (val % 16) as int),
    {
        let ntsc: [u16; 16] = [428, 380, 340, 320, 286, 254, 226, 214, 190, 160, 142, 128, 106, 84, 72, 54];
        let pal: [u16; 16] = [398, 354, 316, 298, 276, 236, 210, 198, 176, 148, 132, 118, 98, 78, 66, 50];
        let index = (val & 0x0F) as usize;
        proof {
            assert(val & 0x0F < 16 && val & 0x0F == val % 16) by (bit_vector);
            assert(ntsc@ == seq![428u16, 380, 340, 320, 286, 254, 226, 214, 190, 160, 142, 128, 106, 84, 72, 54]);
            assert(pal@ == seq![398u16, 354, 316, 298, 276, 236, 210, 198, 176, 148, 132, 118, 98, 78, 66, 50]);
        }
        match region {
            NesRegion::Pal => pal[index] - 1,
            _ => ntsc[index] - 1,
        }
    }

    /// `$4010`: interrupt enable in bit 7, loop in bit 6, rate in the low nibble. Disabling the
    /// interrupt clears a pending one.
    pub fn write_timer(&mut self, val: u8)
        ensures
            *final(self) == old(self).timer_written(val),
    {
        self.irq_enabled = val & 0x80 == 0x80;
        self.loops = val & 0x40 == 0x40;
        self.timer.period = Self::period(self.region, val);
        if !self.irq_enabled {
            self.irq_pending = false;
        }
    }

    /// `$4011`: loads the output level directly with seven bits.
    pub fn write_output(&mut self, val: u8)
        requires
            old(self).wf(),
        ensures
            final(self).wf(),
            *final(self) == (Dmc { output_level: val & 0x7F, ..*old(self) }),
    {
        proof {
            assert(val & 0x7F <= 127) by (bit_vector);
        }
        self.output_level = val & 0x7F;
    }

    /// `$4012`: the sample starts at `$C000 + val * 64`.
    pub fn write_addr(&mut self, val: u8)
        ensures
            *final(self) == (Dmc { sample_addr: (0xC000 + (val as u16) * 64) as u16, ..*old(self) }),
    {
        proof {
            assert(0xC000u16 | ((val as u16) << 6u16) == (0xC000 + (val as u16) * 64) as u16) by (bit_vector);
        }
        self.sample_addr = 0xC000 | ((val as u16) << 6);
    }

    /// `$4013`: the sample is `val * 16 + 1` bytes long.
    pub fn write_length(&mut self, val: u8)
        ensures
            *final(self) == (Dmc { sample_length: ((val as u16) * 16 + 1) as u16, ..*old(self) }),
    {
        proof {
            assert(((val as u16) << 4u16) | 1 == ((val as u16) * 16 + 1) as u16) by (bit_vector);
        }
        self.sample_length = ((val as u16) << 4) | 1;
    }

    /// `$4015`: disabling stops the sample; enabling a finished one restarts it, after a delay of
    /// two or three cycles depending on the cycle's parity.
    pub fn set_enabled(&mut self, enabled: bool, cycle: usize)
        ensures
            *final(self) == old(self).enabled_set(enabled, cycle as int),
    {
        if !enabled {
            self.bytes_remaining = 0;
            self.should_clock = false;
        } else if self.bytes_remaining == 0 {
            self.init_sample();
            proof {
                assert(cycle & 0x01 == 0 <==> cycle % 2 == 0) by (bit_vector);
            }
            self.init = if cycle & 0x01 == 0x00 { 2 } else { 3 };
        }
    }

    /// Counts down the start delay, requesting the first DMA fetch when it runs out with the
    /// buffer empty; returns whether the channel is playing.
    pub fn should_clock(&mut self) -> (b: bool)
        ensures
            b == old(self).should_clock,
            old(self).init == 0 ==> *final(self) == *old(self),
            old(self).init > 0 ==> *final(self) == (Dmc {
                init: (old(self).init - 1) as u8,
                dma_pending: old(self).dma_pending || (old(self).init == 1 && old(self).buffer_empty && old(self).bytes_remaining > 0),
                ..*old(self)
            }),
    {
        if self.init > 0 {
            self.init = self.init - 1;
            if self.init == 0 && self.buffer_empty && self.bytes_remaining > 0 {
                self.dma_pending = true;
            }
        }
        self.should_clock
    }

    /// The output level, or silence when muted.
    pub fn level(&self) -> (l: u8)
        ensures
            l == (if self.force_silent { 0 } else { self.output_level }),
    {
        if self.silent() { 0 } else { self.output_level }
    }

    /// One timer cycle. On an expiry the next bit of the shift register moves the output level
    /// up or down by two, staying within 0..=127, and when the byte is used up the buffer is
    /// moved into the shift register and a refill requested.
    pub fn clock(&mut self) -> (clocked: usize)
        requires
            old(self).wf(),
            old(self).timer.cycle < u32::MAX,
        ensures
            final(self).wf(),
            final(self).timer == tick_state(old(self).timer),
            clocked == (if old(self).timer.counter == 0 { 1usize } else { 0 }),
            old(self).timer.counter != 0 ==> *final(self) == (Dmc { timer: tick_state(old(self).timer), ..*old(self) }),
            old(self).timer.counter == 0 ==> {
                let o = *old(self);
                let level = if o.silence {
                    o.output_level
                } else if o.shift & 1 == 1 {
                    if o.output_level <= 125 { (o.output_level + 2) as u8 } else { o.output_level }
                } else {
                    if o.output_level >= 2 { (o.output_level - 2) as u8 } else { o.output_level }
                };
                let shift = if o.silence { o.shift } else { o.shift >> 1 };
                let bits = if o.bits_remaining > 0 { (o.bits_remaining - 1) as u8 } else { 0u8 };
                let after = Dmc { timer: tick_state(o.timer), output_level: level, shift, bits_remaining: bits, ..o };
                if bits == 0 {
                    if o.buffer_empty {
                        *final(self) == (Dmc { bits_remaining: 8, silence: true, ..after })
                    } else {
                        *final(self) == (Dmc {
                            bits_remaining: 8,
                            silence: false,
                            shift: o.sample_buffer,
                            buffer_empty: true,
                            dma_pending: o.dma_pending || o.bytes_remaining > 0,
                            ..after
                        })
                    }
                } else {
                    *final(self) == after
                }
            },
    {
        if self.timer.tick() {
            if !self.silence {
                if self.shift & 0x01 == 0x01 {
                    if self.output_level <= 125 {
                        self.output_level = self.output_level + 2;
                    }
                } else if self.output_level >= 2 {
                    self.output_level = self.output_level - 2;
                }
                self.shift = self.shift >> 1;
            }
            if self.bits_remaining > 0 {
                self.bits_remaining = self.bits_remaining - 1;
            }
            if self.bits_remaining == 0 {
                self.bits_remaining = 8;
                self.silence = self.buffer_empty;
                if !self.buffer_empty {
                    self.shift = self.sample_buffer;
                    self.buffer_empty = true;
                    if self.bytes_remaining > 0 {
                        self.dma_pending = true;
                    }
                }
            }
            1
        } else {
            0
        }
    }

    /// The region the channel is timed for.
    pub fn region(&self) -> (r: NesRegion)
        ensures
            r == self.region,
    {
        self.region
    }

    /// Re-times the channel for `region` at its slowest rate.
    pub fn set_region(&mut self, region: NesRegion)
        ensures
            *final(self) == (Dmc { region, timer: Timer { period: dmc_period(region, 0), ..old(self).timer }, ..*old(self) }),
    {
        self.region = region;
        self.timer.period = Self::period(region, 0);
    }

    /// Stops playback; a hard reset also restores the sample registers. The timer restarts one
    /// cycle ahead of the console's counters.
    pub fn reset(&mut self, kind: ResetKind)
        ensures
            final(self).wf(),
            *final(self) == old(self).reset_state(kind),
    {
        self.timer.reset(kind);
        self.timer.period = Self::period(self.region, 0);
        self.timer.reload();
        self.timer.cycle = self.timer.cycle + 1;
        if let ResetKind::Hard = kind {
            self.sample_addr = 0xC000;
            self.sample_length = 1;
        }
        self.irq_enabled = false;
        self.loops = false;
        self.addr = 0x0000;
        self.bytes_remaining = 0;
        self.sample_buffer = 0x00;
        self.buffer_empty = true;
        self.output_level = 0x00;
        self.bits_remaining = 0x08;
        self.shift = 0x00;
        self.silence = true;
        self.should_clock = false;
    }
}

impl Default for Dmc {
    fn default() -> (d: Self)
        ensures
            d.wf(),
            d.region == NesRegion::Ntsc,
    {
        Self::new(NesRegion::Ntsc)
    }
}

} // verus!
