//! The frame counter, which generates the low-frequency quarter- and half-frame clocks.
use vstd::prelude::*;
use crate::common::{NesRegion, ResetKind};

verus! {

/// The Frame Counter step sequence mode.
#[derive(Debug, Copy, Clone, PartialEq, Eq, Structural)]
pub enum Mode {
    Step4,
    Step5,
}

impl Default for Mode {
    fn default() -> (m: Self)
        ensures
            m == Mode::Step4,
    {
        Mode::Step4
    }
}

/// The Frame Counter clock type.
#[derive(Debug, Copy, Clone, PartialEq, Eq, Structural)]
pub enum Type {
    NoClock,
    Quarter,
    Half,
}

/// The row of the step table a mode reads.
pub open spec fn mode_index(mode: Mode) -> int {
    match mode {
        Mode::Step4 => 0,
        Mode::Step5 => 1,
    }
}

/// How many cycles each step of a sequence lasts.
pub open spec fn step_cycle(region: NesRegion, mode: int, step: int) -> u16 {
    let ntsc4 = seq![7457u16, 7456, 7458, 7457, 1, 1];
    let ntsc5 = seq![7457u16, 7456, 7458, 7458, 7452, 1];
    let pal4 = seq![8313u16, 8314, 8312, 8313, 1, 1];
    let pal5 = seq![8313u16, 8314, 8312, 8314, 8312, 1];
    if region == NesRegion::Pal {
        if mode == 0 { pal4[step] } else { pal5[step] }
    } else {
        if mode == 0 { ntsc4[step] } else { ntsc5[step] }
    }
}

/// Which clock each step of the sequence produces.
pub open spec fn frame_type(step: int) -> Type {
    if step == 0 || step == 2 {
        Type::Quarter
    } else if step == 1 || step == 4 {
        Type::Half
    } else {
        Type::NoClock
    }
}

/// The Frame Counter generates a low-frequency clock for each channel.
#[derive(Debug, Clone, Copy, PartialEq, Eq)]
pub struct FrameCounter {
    pub region: NesRegion,
    pub step_cycles: [[u16; 6]; 2],
    pub cycles: u16,
    pub step: usize,
    pub mode: Mode,
    pub write_buffer: Option<u8>,
    pub write_delay: u8,
    pub block_counter: u8,
}

impl FrameCounter {
    /// The step table matches the region, the step indexes it, and a buffered write has a delay
    /// left to count down.
    pub open spec fn wf(&self) -> bool {
        &&& self.step < 6
        &&& forall|m: int, s: int| 0 <= m < 2 && 0 <= s < 6 ==> #[trigger] self.step_cycles@[m]@[s] == step_cycle(self.region, m, s)
        &&& self.write_buffer is Some ==> self.write_delay >= 1
    }

    /// After a `$4017` write of `val` on `cycle`: buffered, with the delay its parity sets.
    pub open spec fn written(self, val: u8, cycle: int) -> FrameCounter {
        FrameCounter { write_buffer: Some(val), write_delay: if cycle % 2 == 1 { 4u8 } else { 3 }, ..self }
    }

    /// After a reset of `kind`: back at the first step, a hard reset returning to four-step
    /// mode, with a write of the mode buffered.
    pub open spec fn reset_state(self, kind: ResetKind) -> FrameCounter {
        let mode = if kind == ResetKind::Hard { Mode::Step4 } else { self.mode };
        FrameCounter {
            mode,
            step: 0,
            cycles: step_cycle(self.region, mode_index(mode), 0),
            write_buffer: Some(if mode == Mode::Step4 { 0x00u8 } else { 0x80 }),
            write_delay: 3,
            block_counter: 0,
            ..self
        }
    }

    /// The cycles the current step of the current mode lasts.
    pub open spec fn step_length(&self, step: int) -> u16 {
        step_cycle(self.region, mode_index(self.mode), step)
    }

    /// A frame counter for NTSC, in four-step mode at the start of the sequence.
    pub fn new() -> (f: Self)
        ensures
            f.wf(),
            f.region == NesRegion::Ntsc,
            f.cycles == 7457,
            f.step == 0,
            f.mode == Mode::Step4,
            f.write_buffer is None,
            f.write_delay == 0,
            f.block_counter == 0,
    {
        let region = NesRegion::Ntsc;
        let step_cycles = Self::step_cycles(region);
        Self {
            region,
            step_cycles,
            cycles: step_cycles[0][0],
            step: 0,
            mode: Mode::Step4,
            write_buffer: None,
            write_delay: 0,
            block_counter: 0,
        }
    }

    /// Re-times the sequence for `region`.
    pub fn set_region(&mut self, region: NesRegion)
        requires
            old(self).wf(),
        ensures
            final(self).wf(),
            final(self).region == region,
            final(self).cycles == old(self).cycles,
            final(self).step == old(self).step,
            final(self).mode == old(self).mode,
            final(self).write_buffer == old(self).write_buffer,
            final(self).write_delay == old(self).write_delay,
            final(self).block_counter == old(self).block_counter,
    {
        self.region = region;
        self.step_cycles = Self::step_cycles(region);
    }

    /// The step table for `region`.
    fn step_cycles(region: NesRegion) -> (t: [[u16; 6]; 2])
        ensures
            forall|m: int, s: int| 0 <= m < 2 && 0 <= s < 6 ==> #[trigger] t@[m]@[s] == step_cycle(region, m, s),
    {
        let t: [[u16; 6]; 2] = match region {
            NesRegion::Pal => [[8313, 8314, 8312, 8313, 1, 1], [8313, 8314, 8312, 8314, 8312, 1]],
            _ => [[7457, 7456, 7458, 7457, 1, 1], [7457, 7456, 7458, 7458, 7452, 1]],
        };
        proof {
            if region == NesRegion::Pal {
                assert(t@[0]@ == seq![8313u16, 8314, 8312, 8313, 1, 1]);
                assert(t@[1]@ == seq![8313u16, 8314, 8312, 8314, 8312, 1]);
            } else {
                assert(t@[0]@ == seq![7457u16, 7456, 7458, 7457, 1, 1]);
                assert(t@[1]@ == seq![7457u16, 7456, 7458, 7458, 7452, 1]);
            }
        }
        t
    }

    /// The step table row for `mode`.
    fn mode_row(mode: Mode) -> (r: usize)
        ensures
            r == mode_index(mode),
    {
        match mode {
            Mode::Step4 => 0,
            Mode::Step5 => 1,
        }
    }

    /// Counts down a buffered `$4017` write. When it lands the mode switches and the sequence
    /// restarts, and switching to five-step mode clocks the quarter and half frame at once -
    /// returned as `true` - unless a clock was just produced.
    pub fn update(&mut self) -> (clocked: bool)
        requires
            old(self).wf(),
        ensures
            final(self).wf(),
            final(self).region == old(self).region,
            ({
                let o = *old(self);
                let lands = o.write_buffer is Some && o.write_delay == 1;
                let mode = if lands { if o.write_buffer->0 & 0x80 == 0x80 { Mode::Step5 } else { Mode::Step4 } } else { o.mode };
                let clocks = lands && mode == Mode::Step5 && o.block_counter == 0;
                let block = if clocks { 2u8 } else { o.block_counter };
                &&& clocked == clocks
                &&& final(self).mode == mode
                &&& final(self).block_counter == if block > 0 { (block - 1) as u8 } else { 0 }
                &&& lands ==> final(self).step == 0 && final(self).cycles == step_cycle(o.region, mode_index(mode), 0)
                    && final(self).write_buffer is None
                &&& !lands ==> final(self).step == o.step && final(self).cycles == o.cycles
                    && final(self).write_buffer == o.write_buffer
                &&& final(self).write_delay == if o.write_buffer is Some { (o.write_delay - 1) as u8 } else { o.write_delay }
            }),
    {
        let mut update = false;
        if let Some(val) = self.write_buffer {
            self.write_delay = self.write_delay - 1;
            if self.write_delay == 0 {
                self.mode = if val & 0x80 == 0x80 { Mode::Step5 } else { Mode::Step4 };
                self.step = 0;
                let row = Self::mode_row(self.mode);
                self.cycles = self.step_cycles[row][self.step];
                self.write_buffer = None;
                if self.mode == Mode::Step5 && self.block_counter == 0 {
                    update = true;
                    self.block_counter = 2;
                }
            }
        }
        if self.block_counter > 0 {
            self.block_counter = self.block_counter - 1;
        }
        update
    }

    /// A `$4017` write, buffered for three cycles, or four when it lands on an odd cycle.
    pub fn write(&mut self, val: u8, cycle: usize)
        requires
            old(self).wf(),
        ensures
            final(self).wf(),
            *final(self) == old(self).written(val, cycle as int),
    {
        self.write_buffer = Some(val);
        proof {
            assert(cycle & 0x01 == 0x01 <==> cycle % 2 == 1) by (bit_vector);
        }
        self.write_delay = if cycle & 0x01 == 0x01 { 4 } else { 3 };
    }

    /// One cycle of the sequence. When the step's cycles run out the step is returned, the
    /// sequence advances and wraps after six steps, and a step that clocks blocks `$4017` writes
    /// from clocking for two cycles.
    pub fn clock(&mut self) -> (clocked: usize)
        requires
            old(self).wf(),
        ensures
            final(self).wf(),
            ({
                let o = *old(self);
                let cycles = if o.cycles > 0 { (o.cycles - 1) as u16 } else { 0u16 };
                if cycles == 0 {
                    let next = if o.step == 5 { 0usize } else { (o.step + 1) as usize };
                    &&& clocked == o.step
                    &&& *final(self) == (FrameCounter {
                        step: next,
                        cycles: o.step_length(next as int),
                        block_counter: if frame_type(o.step as int) != Type::NoClock && o.block_counter == 0 { 2u8 } else { o.block_counter },
                        ..o
                    })
                } else {
                    clocked == 0 && *final(self) == (FrameCounter { cycles, ..o })
                }
            }),
    {
        let mut clock: usize = 0;
        if self.cycles > 0 {
            self.cycles = self.cycles - 1;
        }
        if self.cycles == 0 {
            clock = self.step;
            let clocks = match self.step {
                0 | 1 | 2 | 4 => true,
                _ => false,
            };
            if clocks && self.block_counter == 0 {
                self.block_counter = 2;
            }
            self.step = self.step + 1;
            if self.step == 6 {
                self.step = 0;
            }
            let row = Self::mode_row(self.mode);
            self.cycles = self.step_cycles[row][self.step];
        }
        clock
    }

    /// Restarts the sequence as if `$4017` had been written just before: with the current mode
    /// after a soft reset, or four-step mode after a hard one.
    pub fn reset(&mut self, kind: ResetKind)
        requires
            old(self).wf(),
        ensures
            final(self).wf(),
            *final(self) == old(self).reset_state(kind),
    {
        if kind == ResetKind::Hard {
            self.mode = Mode::Step4;
        }
        self.step = 0;
        let row = Self::mode_row(self.mode);
        self.cycles = self.step_cycles[row][self.step];
        self.write_buffer = Some(match self.mode {
            Mode::Step4 => 0x00,
            Mode::Step5 => 0x80,
        });
        self.write_delay = 3;
        self.block_counter = 0;
    }
}

impl Default for FrameCounter {
    fn default() -> (f: Self)
        ensures
            f.wf(),
    {
        FrameCounter::new()
    }
}

} // verus!
