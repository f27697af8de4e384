//! Noise channel.
use vstd::prelude::*;
use crate::apu::envelope::Envelope;
use crate::apu::length_counter::{LengthCounter, length_table};
use crate::apu::timer::Timer;
use crate::common::{NesRegion, ResetKind};

verus! {

/// Noise shift mode.
#[derive(Debug, PartialEq, Eq, Copy, Clone, Structural)]
pub enum ShiftMode {
    /// Zero (XOR bits 0 and 1)
    Zero,
    /// One (XOR bits 0 and 6)
    One,
}

/// The timer period that a `$400E` write selects with its low nibble, one less than the number of
/// CPU cycles between shifts. NTSC and Dendy share a table, as does an undetected region.
pub open spec fn noise_period(region: NesRegion, index: int) -> u16 {
    let ntsc = seq![4u16, 8, 16, 32, 64, 96, 128, 160, 202, 254, 380, 508, 762, 1016, 2034, 4068];
    let pal = seq![4u16, 8, 14, 30, 60, 88, 118, 148, 188, 236, 354, 472, 708, 944, 1890, 3778];
    if region == NesRegion::Pal { (pal[index] - 1) as u16 } else { (ntsc[index] - 1) as u16 }
}

/// The shift register after one shift: the feedback bit is bit 0 XOR bit 1 (bit 6 in mode one),
/// and enters at bit 14.
pub open spec fn shifted(shift: u16, mode: ShiftMode) -> u16 {
    let by: u16 = if mode == ShiftMode::One { 6 } else { 1 };
    let feedback = (shift & 0x01) ^ ((shift >> by) & 0x01);
    (shift >> 1) | (feedback << 14u16)
}

/// Noise Channel provides pseudo-random noise generation.
#[derive(Debug, Clone, Copy, PartialEq, Eq, Structural)]
pub struct Noise {
    pub region: NesRegion,
    pub timer: Timer,
    pub shift: u16,
    pub shift_mode: ShiftMode,
    pub length: LengthCounter,
    pub envelope: Envelope,
    pub force_silent: bool,
}

impl Noise {
    /// The shift register is 15 bits, and the envelope's volumes 4.
    pub open spec fn wf(&self) -> bool {
        self.shift < 0x8000 && self.envelope.wf()
    }

    /// After a write of `val` to the control register.
    pub open spec fn ctrl_written(self, val: u8) -> Noise {
        Noise {
            length: LengthCounter { enabled: (val >> 5) & 1 == 0, ..self.length },
            envelope: Envelope {
                loops: val & 0x20 == 0x20,
                constant_volume: val & 0x10 == 0x10,
                volume: val & 0x0F,
                ..self.envelope
            },
            ..self
        }
    }

    /// After a write of `val` to the period and mode register.
    pub open spec fn timer_written(self, val: u8) -> Noise {
        Noise {
            timer: Timer { period: noise_period(self.region, (val % 16) as int), ..self.timer },
            shift_mode: if val & 0x80 == 0x80 { ShiftMode::One } else { ShiftMode::Zero },
            ..self
        }
    }

    /// After a write of `val` to the length register, which restarts the envelope.
    pub open spec fn length_written(self, val: u8) -> Noise {
        Noise {
            length: LengthCounter { counter: length_table()[(val >> 3) as int], ..self.length },
            envelope: Envelope { start: true, ..self.envelope },
            ..self
        }
    }

    /// After `$4015` enables or disables the channel: disabling zeroes the length counter.
    pub open spec fn enabled_set(self, enabled: bool) -> Noise {
        if enabled { self } else { Noise { length: LengthCounter { counter: 0, ..self.length }, ..self } }
    }

    /// After a reset: the envelope and length cleared, the shortest period, the shift register
    /// back at one.
    pub open spec fn reset_state(self) -> Noise {
        Noise {
            envelope: Envelope { start: false, constant_volume: false, volume: 0, divider: 0, counter: 0, loops: self.envelope.loops },
            length: LengthCounter { enabled: true, counter: 0 },
            timer: Timer { period: noise_period(self.region, 0), ..self.timer },
            shift: 1,
            shift_mode: ShiftMode::Zero,
            ..self
        }
    }

    /// Whether the channel outputs silence.
    pub open spec fn spec_is_muted(&self) -> bool {
        self.shift & 0x01 == 0x01 || self.force_silent
    }

    /// The channel's volume: the envelope's, while the length counter runs.
    pub open spec fn spec_volume(&self) -> u8 {
        if self.length.counter > 0 { self.envelope.spec_volume() } else { 0 }
    }

    /// A silent channel for `region`, its shift register seeded with 1 as at power-up.
    pub fn new(region: NesRegion) -> (n: Self)
        ensures
            n.wf(),
            n == (Noise {
                region,
                timer: Timer { cycle: 0, counter: 0, period: noise_period(region, 0) },
                shift: 1,
                shift_mode: ShiftMode::Zero,
                length: LengthCounter { enabled: false, counter: 0 },
                envelope: Envelope { start: false, constant_volume: false, volume: 0, divider: 0, counter: 0, loops: false },
                force_silent: false,
            }),
    {
        Self {
            region,
            timer: Timer::new(Self::period(region, 0)),
            shift: 1,
            shift_mode: ShiftMode::Zero,
            length: LengthCounter::new(),
            envelope: Envelope::new(),
            force_silent: false,
        }
    }

    /// Whether the channel outputs silence: bit 0 of the shift register set, or muted by the
    /// player.
    pub fn is_muted(&self) -> (b: bool)
        ensures
            b == self.spec_is_muted(),
    {
        (self.shift & 0x01) == 0x01 || self.silent()
    }

    /// Whether the player muted the channel.
    pub fn silent(&self) -> (b: bool)
        ensures
            b == self.force_silent,
    {
        self.force_silent
    }

    /// Mutes or unmutes the channel for the player.
    pub fn set_silent(&mut self, silent: bool)
        ensures
            *final(self) == (Noise { force_silent: silent, ..*old(self) }),
    {
        self.force_silent = silent;
    }

    /// The timer period the low nibble of `val` selects in `region`.
    fn period(region: NesRegion, val: u8) -> (p: u16)
        ensures
            p == noise_period(region, (val % 16) as int),
    {
        let ntsc: [u16; 16] = [4, 8, 16, 32, 64, 96, 128, 160, 202, 254, 380, 508, 762, 1016, 2034, 4068];
        let pal: [u16; 16] = [4, 8, 14, 30, 60, 88, 118, 148, 188, 236, 354, 472, 708, 944, 1890, 3778];
        let index = (val & 0x0F) as usize;
        proof {
            assert(val & 0x0F < 16 && val & 0x0F == val % 16) by (bit_vector);
            assert(ntsc@ == seq![4u16, 8, 16, 32, 64, 96, 128, 160, 202, 254, 380, 508, 762, 1016, 2034, 4068]);
            assert(pal@ == seq![4u16, 8, 14, 30, 60, 88, 118, 148, 188, 236, 354, 472, 708, 944, 1890, 3778]);
        }
        match region {
            NesRegion::Pal => pal[index] - 1,
            _ => ntsc[index] - 1,
        }
    }

    /// A quarter frame clocks the envelope.
    pub fn clock_quarter_frame(&mut self)
        requires
            old(self).wf(),
        ensures
            final(self).wf(),
            *final(self) == (Noise { envelope: old(self).envelope.clocked(), ..*old(self) }),
    {
        let _ = self.envelope.clock();
    }

    /// A half frame clocks the envelope and the length counter.
    pub fn clock_half_frame(&mut self)
        requires
            old(self).wf(),
        ensures
            final(self).wf(),
            *final(self) == (Noise { envelope: old(self).envelope.clocked(), length: old(self).length.clocked(), ..*old(self) }),
    {
        self.clock_quarter_frame();
        self.length.clock();
    }

    /// `$400C`: length halt in bit 5, envelope in bits 5..0.
    pub fn write_ctrl(&mut self, val: u8)
        requires
            old(self).wf(),
        ensures
            final(self).wf(),
            *final(self) == old(self).ctrl_written(val),
    {
        self.length.write_ctrl(val);
        self.envelope.write_ctrl(val);
    }

    /// `$400E`: the period in the low nibble, the shift mode in bit 7.
    pub fn write_timer(&mut self, val: u8)
        ensures
            *final(self) == old(self).timer_written(val),
    {
        self.timer.period = Self::period(self.region, val);
        self.shift_mode = if (val & 0x80) == 0x80 { ShiftMode::One } else { ShiftMode::Zero };
    }

    /// `$400F`: the length load in bits 7..3; restarts the envelope.
    pub fn write_length(&mut self, val: u8)
        ensures
            *final(self) == old(self).length_written(val),
    {
        self.length.load_value(val);
        self.envelope.restart();
    }

    /// `$4015`: disabling the channel zeroes its length counter.
    pub fn set_enabled(&mut self, enabled: bool)
        ensures
            *final(self) == old(self).enabled_set(enabled),
    {
        self.length.set_enabled(enabled);
    }

    /// The envelope's volume while the length counter runs, silence after.
    pub fn volume(&self) -> (v: u8)
        requires
            self.wf(),
        ensures
            v == self.spec_volume(),
            v <= 15,
    {
        if self.length.counter > 0 {
            self.envelope.volume()
        } else {
            0
        }
    }

    /// Raw channel level, 0-15: the volume unless muted.
    pub fn level(&self) -> (l: u8)
        requires
            self.wf(),
        ensures
            l == (if self.spec_is_muted() { 0 } else { self.spec_volume() }),
    {
        if self.is_muted() {
            0
        } else {
            self.volume()
        }
    }

    /// One shift of the feedback register. A register holding any set bit never shifts down to
    /// all zeros, so the channel cannot lock up.
    pub fn clock(&mut self) -> (clocked: usize)
        requires
            old(self).wf(),
        ensures
            final(self).wf(),
            clocked == 1,
            *final(self) == (Noise { shift: shifted(old(self).shift, old(self).shift_mode), ..*old(self) }),
            old(self).shift != 0 ==> final(self).shift != 0,
    {
        let shift_by: u16 = if self.shift_mode == ShiftMode::One { 6 } else { 1 };
        let s = self.shift;
        let feedback = (s & 0x01) ^ ((s >> shift_by) & 0x01);
        proof {
            assert(feedback <= 1) by (bit_vector)
                requires feedback == (s & 0x01) ^ ((s >> shift_by) & 0x01);
            assert(s < 0x8000 && feedback <= 1 ==> ((s >> 1u16) | (feedback << 14u16)) < 0x8000) by (bit_vector);
            assert(s != 0 && s < 0x8000 && (shift_by == 1 || shift_by == 6) && feedback == (s & 0x01) ^ ((s >> shift_by) & 0x01)
                ==> ((s >> 1u16) | (feedback << 14u16)) != 0) by (bit_vector);
        }
        self.shift = (s >> 1) | (feedback << 14);
        1
    }

    /// The region the channel is timed for.
    pub fn region(&self) -> (r: NesRegion)
        ensures
            r == self.region,
    {
        self.region
    }

    /// Re-times the channel for `region`; the period takes effect on the next `$400E` write.
    pub fn set_region(&mut self, region: NesRegion)
        ensures
            *final(self) == (Noise { region, ..*old(self) }),
    {
        self.region = region;
    }

    /// Resets the envelope and length counter, the period to its shortest, and reseeds the shift
    /// register.
    pub fn reset(&mut self, kind: ResetKind)
        ensures
            final(self).wf(),
            *final(self) == old(self).reset_state(),
    {
        self.envelope.reset(kind);
        self.length.reset(kind);
        self.timer.period = Self::period(self.region, 0);
        self.shift = 1;
        self.shift_mode = ShiftMode::Zero;
    }
}

impl Default for Noise {
    fn default() -> (n: Self)
        ensures
            n.wf(),
            n.region == NesRegion::Ntsc,
    {
        Self::new(NesRegion::Ntsc)
    }
}

} // verus!
