//! Volume envelopes for the audio channels.
use vstd::prelude::*;
use crate::common::ResetKind;

verus! {

/// Envelope provides volume control for the pulse and noise channels.
#[derive(Debug, Clone, Copy, PartialEq, Eq, Structural)]
pub struct Envelope {
    pub start: bool,
    pub constant_volume: bool,
    pub volume: u8,
    pub divider: u8,
    pub counter: u8,
    pub loops: bool,
}

impl Envelope {
    /// Volumes stay 4-bit.
    pub open spec fn wf(&self) -> bool {
        self.volume <= 15 && self.counter <= 15
    }

    /// The level the envelope outputs.
    pub open spec fn spec_volume(&self) -> u8 {
        if self.constant_volume { self.volume } else { self.counter }
    }

    /// The envelope after one quarter-frame clock.
    pub open spec fn clocked(self) -> Envelope {
        if self.start {
            Envelope { start: false, counter: 15, divider: self.volume, ..self }
        } else if self.divider > 0 {
            Envelope { divider: (self.divider - 1) as u8, ..self }
        } else {
            Envelope {
                divider: self.volume,
                counter: if self.counter > 0 {
                    (self.counter - 1) as u8
                } else if self.loops {
                    15
                } else {
                    0
                },
                ..self
            }
        }
    }

    /// A silent envelope.
    pub fn new() -> (e: Self)
        ensures
            e == (Envelope { start: false, constant_volume: false, volume: 0, divider: 0, counter: 0, loops: false }),
            e.wf(),
    {
        Self { start: false, constant_volume: false, volume: 0, divider: 0, counter: 0, loops: false }
    }

    /// The constant volume, or the decaying counter when the envelope is not constant.
    pub fn volume(&self) -> (v: u8)
        ensures
            v == self.spec_volume(),
            self.wf() ==> v <= 15,
    {
        if self.constant_volume {
            self.volume
        } else {
            self.counter
        }
    }

    /// Restarts the decay on the next clock.
    pub fn restart(&mut self)
        ensures
            *final(self) == (Envelope { start: true, ..*old(self) }),
    {
        self.start = true;
    }

    /// `$4000`/`$4004`/`$400C`: bit 5 loops the decay, bit 4 selects constant volume, and the low
    /// nibble is the volume or the decay period.
    pub fn write_ctrl(&mut self, val: u8)
        ensures
            *final(self) == (Envelope {
                loops: val & 0x20 == 0x20,
                constant_volume: val & 0x10 == 0x10,
                volume: val & 0x0F,
                ..*old(self)
            }),
            old(self).wf() ==> final(self).wf(),
    {
        self.loops = (val & 0x20) == 0x20;
        self.constant_volume = (val & 0x10) == 0x10;
        self.volume = val & 0x0F;
        proof {
            assert(val & 0x0F <= 15) by (bit_vector);
        }
    }

    /// One quarter-frame: a pending restart reloads the decay at 15, otherwise the divider counts
    /// down and each time it runs out the decay steps down, wrapping to 15 when looping.
    pub fn clock(&mut self) -> (clocked: usize)
        ensures
            old(self).wf() ==> final(self).wf(),
            *final(self) == old(self).clocked(),
            clocked == 1,
    {
        if self.start {
            self.start = false;
            self.counter = 15;
            self.divider = self.volume;
        } else if self.divider > 0 {
            self.divider = self.divider - 1;
        } else {
            self.divider = self.volume;
            if self.counter > 0 {
                self.counter = self.counter - 1;
            } else if self.loops {
                self.counter = 15;
            }
        }
        1
    }

    /// Silences the envelope; the loop flag survives.
    pub fn reset(&mut self, _kind: ResetKind)
        ensures
            *final(self) == (Envelope { start: false, constant_volume: false, volume: 0, divider: 0, counter: 0, loops: old(self).loops }),
            final(self).wf(),
    {
        self.start = false;
        self.constant_volume = false;
        self.volume = 0;
        self.divider = 0;
        self.counter = 0;
    }
}

impl Default for Envelope {
    fn default() -> (e: Self)
        ensures
            e == (Envelope { start: false, constant_volume: false, volume: 0, divider: 0, counter: 0, loops: false }),
    {
        Envelope::new()
    }
}

} // verus!
