//! Direct memory access: the cycles the CPU gives up to the DMC sample fetch and to the OAM
//! sprite copy.
use vstd::prelude::*;

use crate::apu::dmc::Dmc;
use crate::cpu::{Cpu, CpuView, IrqFlags};

verus! {

/// Everything a DMA works on: the CPU (its flags, cycle count and memory), the DMC it fetches
/// for, the bytes sent to the PPU's OAM port, and the progress of the sprite copy.
pub struct DmaState {
    pub cpu: CpuView,
    pub dmc: Dmc,
    /// What has been written to `$2004`, in order.
    pub oam: Seq<u8>,
    /// How many bytes of the sprite page have been read.
    pub offset: u16,
    /// How many sprite cycles (reads and writes) have run.
    pub count: u16,
    /// The byte the last DMA read fetched.
    pub read_val: u8,
}

/// Builds a [`DmaState`].
pub open spec fn dma_state(cpu: CpuView, dmc: Dmc, oam: Seq<u8>, offset: u16, count: u16, read_val: u8) -> DmaState {
    DmaState { cpu, dmc, oam, offset, count, read_val }
}

/// Whether every flag of `f` is set in `flags`.
pub open spec fn flag_set(flags: u8, f: u8) -> bool {
    flags & f == f
}

/// The flags after a DMA cycle begins: it serves as the halt cycle if one is still owed, and
/// otherwise as the dummy read.
pub open spec fn after_dma_cycle(flags: u8) -> u8 {
    if flag_set(flags, IrqFlags::DMA_HALT) { flags & !IrqFlags::DMA_HALT } else { flags & !IrqFlags::DMA_DUMMY_READ }
}

/// Whether neither DMA has anything left to do.
pub open spec fn dma_done(s: DmaState) -> bool {
    !flag_set(s.cpu.irq_flags, IrqFlags::DMA_DMC) && s.cpu.dma_oam_addr is None
}

/// One DMA cycle. On even cycles the DMC fetches its byte once its halt and dummy read are done,
/// else the sprite copy reads its next byte, else the cycle is spent waiting; on odd cycles the
/// sprite copy writes the byte it just read to `$2004`, else the cycle aligns the next read.
pub open spec fn dma_step(s: DmaState) -> DmaState {
    let f = s.cpu.irq_flags;
    let ticked = CpuView { irq_flags: after_dma_cycle(f), ..s.cpu }.tick();
    if s.cpu.cycle % 2 == 0 {
        if flag_set(f, IrqFlags::DMA_DMC) && !flag_set(f, IrqFlags::DMA_HALT) && !flag_set(f, IrqFlags::DMA_DUMMY_READ) {
            let v = s.cpu.at(s.dmc.addr);
            DmaState {
                cpu: CpuView { irq_flags: ticked.irq_flags & !IrqFlags::DMA_DMC, ..ticked },
                dmc: s.dmc.loaded(v),
                read_val: v,
                ..s
            }
        } else if s.cpu.dma_oam_addr is Some {
            let v = s.cpu.at((s.cpu.dma_oam_addr->0 + s.offset) as u16);
            DmaState { cpu: ticked, read_val: v, offset: (s.offset + 1) as u16, count: (s.count + 1) as u16, ..s }
        } else {
            DmaState { cpu: ticked, ..s }
        }
    } else if s.cpu.dma_oam_addr is Some && s.count % 2 == 1 {
        let count = (s.count + 1) as u16;
        DmaState {
            cpu: CpuView { dma_oam_addr: if count == 0x200 { None } else { ticked.dma_oam_addr }, ..ticked },
            oam: s.oam.push(s.read_val),
            count,
            ..s
        }
    } else {
        DmaState { cpu: ticked, ..s }
    }
}

/// The states a DMA passes through keep the sprite copy in step: a page is 256 reads and 256
/// writes, a read always comes before its write on the next (odd) cycle, and the page ends
/// where the copy stops.
pub open spec fn dma_ok(s: DmaState) -> bool {
    &&& s.cpu.mem.len() == 0x10000
    &&& s.count <= 0x200
    &&& s.offset == (s.count + 1) / 2
    &&& s.cpu.dma_oam_addr matches Some(a) ==> {
        &&& s.count < 0x200
        &&& a <= 0xFF00
        &&& s.count % 2 == 1 ==> s.cpu.cycle % 2 == 1
    }
}

/// What is left to do, in cycles of work: two per sprite cycle, two for a DMC fetch, one for
/// each of the halt and the dummy read still owed.
pub open spec fn dma_work(s: DmaState) -> int {
    let f = s.cpu.irq_flags;
    2 * (if s.cpu.dma_oam_addr is Some { 0x200 - s.count } else { 0 })
        + (if flag_set(f, IrqFlags::DMA_DMC) { 2int } else { 0int })
        + (if flag_set(f, IrqFlags::DMA_HALT) { 1int } else { 0int })
        + (if flag_set(f, IrqFlags::DMA_DUMMY_READ) { 1int } else { 0int })
}

/// The measure a DMA cycle brings down: work, then the alignment an odd cycle may spend.
pub open spec fn dma_measure(s: DmaState) -> int {
    2 * dma_work(s) + (if s.cpu.cycle % 2 == 1 { 1int } else { 0int })
}

/// Clearing one DMA flag clears it and leaves the other two as they were.
proof fn lemma_clear_flag(f: u8, x: u8, y: u8)
    by (bit_vector)
    requires
        x == 0x20 || x == 0x40 || x == 0x80,
        y == 0x20 || y == 0x40 || y == 0x80,
        x != y,
    ensures
        (f & !x) & x != x,
        ((f & !x) & y == y) <==> (f & y == y),
{
}

/// How the three DMA flags move when one of them is cleared.
proof fn lemma_dma_flag_bits(f: u8)
    ensures
        !flag_set(f & !IrqFlags::DMA_HALT, IrqFlags::DMA_HALT),
        flag_set(f & !IrqFlags::DMA_HALT, IrqFlags::DMA_DUMMY_READ) == flag_set(f, IrqFlags::DMA_DUMMY_READ),
        flag_set(f & !IrqFlags::DMA_HALT, IrqFlags::DMA_DMC) == flag_set(f, IrqFlags::DMA_DMC),
        !flag_set(f & !IrqFlags::DMA_DUMMY_READ, IrqFlags::DMA_DUMMY_READ),
        flag_set(f & !IrqFlags::DMA_DUMMY_READ, IrqFlags::DMA_HALT) == flag_set(f, IrqFlags::DMA_HALT),
        flag_set(f & !IrqFlags::DMA_DUMMY_READ, IrqFlags::DMA_DMC) == flag_set(f, IrqFlags::DMA_DMC),
        !flag_set(f & !IrqFlags::DMA_DMC, IrqFlags::DMA_DMC),
        flag_set(f & !IrqFlags::DMA_DMC, IrqFlags::DMA_HALT) == flag_set(f, IrqFlags::DMA_HALT),
        flag_set(f & !IrqFlags::DMA_DMC, IrqFlags::DMA_DUMMY_READ) == flag_set(f, IrqFlags::DMA_DUMMY_READ),
{
    lemma_clear_flag(f, IrqFlags::DMA_HALT, IrqFlags::DMA_DUMMY_READ);
    lemma_clear_flag(f, IrqFlags::DMA_HALT, IrqFlags::DMA_DMC);
    lemma_clear_flag(f, IrqFlags::DMA_DUMMY_READ, IrqFlags::DMA_HALT);
    lemma_clear_flag(f, IrqFlags::DMA_DUMMY_READ, IrqFlags::DMA_DMC);
    lemma_clear_flag(f, IrqFlags::DMA_DMC, IrqFlags::DMA_HALT);
    lemma_clear_flag(f, IrqFlags::DMA_DMC, IrqFlags::DMA_DUMMY_READ);
}

/// A cycle flips the parity of the cycle count, wrapping included.
proof fn lemma_cycle_parity(c: u32)
    ensures
        c.wrapping_add(1) % 2 == 1 <==> c % 2 == 0,
{
}

/// Each DMA cycle keeps the sprite copy in step and brings the measure down.
pub proof fn lemma_dma_step(s: DmaState)
    requires
        dma_ok(s),
        !dma_done(s),
    ensures
        dma_ok(dma_step(s)),
        0 <= dma_measure(dma_step(s)) < dma_measure(s),
{
    lemma_dma_flag_bits(s.cpu.irq_flags);
    lemma_dma_flag_bits(after_dma_cycle(s.cpu.irq_flags));
    lemma_cycle_parity(s.cpu.cycle);
}

/// The DMA run to its end, one cycle at a time.
pub open spec fn dma_run(s: DmaState) -> DmaState
    decreases dma_measure(s),
    when dma_ok(s) && dma_measure(s) >= 0
{
    if dma_done(s) {
        s
    } else {
        proof {
            lemma_dma_step(s);
        }
        dma_run(dma_step(s))
    }
}

/// The state a DMA starts its cycles from, once the halt cycle on `addr` has run.
pub open spec fn halted(cpu: CpuView, dmc: Dmc, oam: Seq<u8>) -> DmaState {
    let t = cpu.tick();
    dma_state(CpuView { irq_flags: t.irq_flags & !IrqFlags::DMA_HALT, ..t }, dmc, oam, 0, 0, 0)
}

/// The bytes the CPU reads at addresses `start` up to `end`, through the mirrors.
pub open spec fn page(cpu: CpuView, start: int, end: int) -> Seq<u8> {
    Seq::new((end - start) as nat, |i: int| cpu.at((start + i) as u16))
}

/// The sprite bytes a DMA still owes OAM: the byte read and not yet written, then the rest of
/// the page.
pub open spec fn oam_pending(s: DmaState) -> Seq<u8> {
    match s.cpu.dma_oam_addr {
        Some(a) => (if s.count % 2 == 1 { seq![s.read_val] } else { Seq::empty() })
            + page(s.cpu, a + s.offset, a + 256),
        None => Seq::empty(),
    }
}

/// What is left of a DMA comes out of the run: the DMC gets the byte at its address if it still
/// asks for one, OAM gets what the sprite copy still owes, and of the CPU only the cycle count
/// and the DMA flags move.
proof fn lemma_dma_run_delivers(s: DmaState)
    requires
        dma_ok(s),
    ensures
        ({
            let r = dma_run(s);
            &&& dma_done(r)
            &&& r.cpu == (CpuView { cycle: r.cpu.cycle, irq_flags: r.cpu.irq_flags, dma_oam_addr: None, ..s.cpu })
            &&& r.dmc == if flag_set(s.cpu.irq_flags, IrqFlags::DMA_DMC) { s.dmc.loaded(s.cpu.at(s.dmc.addr)) } else { s.dmc }
            &&& r.oam == s.oam + oam_pending(s)
        }),
    decreases dma_measure(s),
{
    if !dma_done(s) {
        let n = dma_step(s);
        lemma_dma_step(s);
        lemma_dma_flag_bits(s.cpu.irq_flags);
        lemma_dma_flag_bits(after_dma_cycle(s.cpu.irq_flags));
        lemma_cycle_parity(s.cpu.cycle);
        lemma_dma_run_delivers(n);
        assert(n.cpu.mem == s.cpu.mem);
        if let Some(a) = s.cpu.dma_oam_addr {
            let rest = page(s.cpu, a + s.offset, a + 256);
            if s.cpu.cycle % 2 == 0 {
                if flag_set(s.cpu.irq_flags, IrqFlags::DMA_DMC) && !flag_set(s.cpu.irq_flags, IrqFlags::DMA_HALT)
                    && !flag_set(s.cpu.irq_flags, IrqFlags::DMA_DUMMY_READ) {
                    assert(oam_pending(n) == oam_pending(s));
                } else {
                    assert(seq![s.cpu.at((a + s.offset) as u16)] + page(s.cpu, a + s.offset + 1, a + 256) =~= rest);
                    assert(oam_pending(n) =~= oam_pending(s));
                }
            } else if s.count % 2 == 1 {
                if n.count == 0x200 {
                    assert(rest =~= Seq::<u8>::empty());
                }
                assert(n.oam + oam_pending(n) =~= s.oam + oam_pending(s));
            }
        }
    }
}

/// A DMA runs to its end. Both DMAs finish; the DMC is handed the byte at its address, once, if
/// it asked for one; a sprite copy sends OAM the whole 256-byte page it was started on, in
/// order; and the CPU's memory and registers are left as they were, only its cycle count and
/// DMA flags moving.
pub proof fn lemma_dma_copies_the_sprite_page(cpu: CpuView, dmc: Dmc, oam: Seq<u8>)
    requires
        cpu.mem.len() == 0x10000,
        cpu.dma_oam_addr matches Some(a) ==> a <= 0xFF00,
    ensures
        ({
            let s = halted(cpu, dmc, oam);
            let r = dma_run(s);
            &&& dma_done(r)
            &&& r.cpu == (CpuView { cycle: r.cpu.cycle, irq_flags: r.cpu.irq_flags, dma_oam_addr: None, ..cpu })
            &&& r.dmc == if flag_set(cpu.irq_flags, IrqFlags::DMA_DMC) { dmc.loaded(cpu.at(dmc.addr)) } else { dmc }
            &&& r.oam == oam + match cpu.dma_oam_addr {
                Some(a) => page(cpu, a as int, a + 256),
                None => Seq::empty(),
            }
        }),
{
    let s = halted(cpu, dmc, oam);
    lemma_dma_flag_bits(cpu.irq_flags);
    lemma_dma_run_delivers(s);
    assert(oam_pending(s) =~= match cpu.dma_oam_addr {
        Some(a) => page(cpu, a as int, a + 256),
        None => Seq::<u8>::empty(),
    });
}

impl Cpu {
    /// Begins a DMA cycle, serving as the halt cycle if one is still owed and otherwise as the
    /// dummy read. The read or write that follows spends the cycle.
    fn start_dma_cycle(&mut self)
        ensures
            final(self)@ == (CpuView { irq_flags: after_dma_cycle(old(self)@.irq_flags), ..old(self)@ }),
            final(self).mem@ == old(self).mem@,
    {
        if self.irq_flags(IrqFlags::DMA_HALT) {
            self.clear_irq_flags(IrqFlags::DMA_HALT);
        } else {
            self.clear_irq_flags(IrqFlags::DMA_DUMMY_READ);
        }
    }

    /// A cycle that reads nothing the CPU keeps.
    fn idle_cycle(&mut self)
        ensures
            final(self)@ == old(self)@.tick(),
            final(self).mem@ == old(self).mem@,
    {
        self.cycle = self.cycle.wrapping_add(1);
    }

    /// Runs the DMAs that are pending when the CPU is about to read `addr`: the DMC sample fetch,
    /// which hands its byte to `dmc`, and the OAM sprite copy, whose writes to `$2004` are
    /// appended to `oam`. The CPU halts on `addr` first, and its idle cycles are dummy reads of
    /// `addr`, except of the controller ports, where a read would shift a controller.
    pub fn handle_dma(&mut self, addr: u16, dmc: &mut Dmc, oam: &mut Vec<u8>)
        requires
            old(self).wf(),
            old(self).dma_oam_addr matches Some(a) ==> a <= 0xFF00,
        ensures
            final(self).wf(),
            ({
                let r = dma_run(halted(old(self)@, *old(dmc), old(oam)@));
                &&& final(self)@ == r.cpu
                &&& *final(dmc) == r.dmc
                &&& final(oam)@ == r.oam
            }),
    {
        let _ = self.read(addr);
        self.clear_irq_flags(IrqFlags::DMA_HALT);
        let skip_dummy_reads = addr == 0x4016 || addr == 0x4017;
        let mut oam_offset: u16 = 0;
        let mut oam_dma_count: u16 = 0;
        let mut read_val: u8 = 0;
        let ghost start = halted(old(self)@, *old(dmc), old(oam)@);
        assert(dma_state(self@, *dmc, oam@, oam_offset, oam_dma_count, read_val) == start);
        while self.irq_flags(IrqFlags::DMA_DMC) || self.dma_oam_addr.is_some()
            invariant
                self.wf(),
                dma_ok(dma_state(self@, *dmc, oam@, oam_offset, oam_dma_count, read_val)),
                dma_measure(dma_state(self@, *dmc, oam@, oam_offset, oam_dma_count, read_val)) >= 0,
                dma_ok(start) && dma_measure(start) >= 0,
                dma_run(dma_state(self@, *dmc, oam@, oam_offset, oam_dma_count, read_val)) == dma_run(start),
            decreases dma_measure(dma_state(self@, *dmc, oam@, oam_offset, oam_dma_count, read_val)),
        {
            let ghost s = dma_state(self@, *dmc, oam@, oam_offset, oam_dma_count, read_val);
            proof {
                lemma_dma_step(s);
                lemma_cycle_parity(self.cycle);
            }
            let dma_dmc = self.irq_flags(IrqFlags::DMA_DMC);
            let dma_oam_addr = self.dma_oam_addr;
            if self.cycle % 2 == 0 {
                if dma_dmc && !self.irq_flags(IrqFlags::DMA_HALT) && !self.irq_flags(IrqFlags::DMA_DUMMY_READ) {
                    // The DMC's halt and dummy read are done: fetch its byte.
                    self.start_dma_cycle();
                    let dma_addr = dmc.dma_addr();
                    read_val = self.read(dma_addr);
                    dmc.load_buffer(read_val);
                    self.clear_irq_flags(IrqFlags::DMA_DMC);
                } else if let Some(oam_addr) = dma_oam_addr {
                    // The DMC is not ready or not running: read the next sprite byte.
                    self.start_dma_cycle();
                    read_val = self.read(oam_addr + oam_offset);
                    oam_offset = oam_offset + 1;
                    oam_dma_count = oam_dma_count + 1;
                } else {
                    // The DMC still owes its halt or dummy read, and no sprite copy runs.
                    self.start_dma_cycle();
                    if !skip_dummy_reads {
                        let _ = self.read(addr);
                    } else {
                        self.idle_cycle();
                    }
                }
            } else if dma_oam_addr.is_some() && oam_dma_count % 2 == 1 {
                // A sprite byte is written on the odd cycle after it was read.
                self.start_dma_cycle();
                self.idle_cycle();
                oam.push(read_val);
                oam_dma_count = oam_dma_count + 1;
                if oam_dma_count == 0x200 {
                    self.dma_oam_addr = None;
                }
            } else {
                // Align to the even cycle a read takes.
                self.start_dma_cycle();
                if !skip_dummy_reads {
                    let _ = self.read(addr);
                } else {
                    self.idle_cycle();
                }
            }
            assert(dma_state(self@, *dmc, oam@, oam_offset, oam_dma_count, read_val) == dma_step(s));
        }
        assert(dma_done(dma_state(self@, *dmc, oam@, oam_offset, oam_dma_count, read_val)));
    }
}

} // verus!
