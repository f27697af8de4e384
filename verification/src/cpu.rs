//! 6502 Central Processing Unit: the register file, the cycle counter and the 64 KiB address
//! space the CPU sees.
use vstd::prelude::*;
use crate::bus::{mirror, mirrored};
use crate::common::{NesRegion, ResetKind};
use crate::cpu::instr::AddrMode;

pub mod disasm;
pub mod dma;
pub mod instr;

verus! {

/// `bits` with the bits of `flag` set when `on`, cleared otherwise.
pub open spec fn set_bits(bits: u8, flag: u8, on: bool) -> u8 {
    if on { bits | flag } else { bits & !flag }
}

/// CPU status register.
///
/// ```text
/// 7654 3210
/// NVUB DIZC
/// ```
#[derive(Debug, Copy, Clone, PartialEq, Eq, Structural)]
pub struct Status {
    pub bits: u8,
}

impl Status {
    /// Carry.
    pub const C: u8 = 0x01;
    /// Zero.
    pub const Z: u8 = 0x02;
    /// Disable interrupt.
    pub const I: u8 = 0x04;
    /// Decimal mode; unused by the NES, but the flag itself still works.
    pub const D: u8 = 0x08;
    /// Break: set when pushed by PHP/BRK, clear when pushed by IRQ/NMI.
    pub const B: u8 = 0x10;
    /// Unused; always set when pushed to the stack.
    pub const U: u8 = 0x20;
    /// Overflow.
    pub const V: u8 = 0x40;
    /// Negative.
    pub const N: u8 = 0x80;

    /// The register as a byte.
    pub fn bits(&self) -> (b: u8)
        ensures
            b == self.bits,
    {
        self.bits
    }

    /// A register holding `bits`.
    pub fn from_bits_truncate(bits: u8) -> (s: Status)
        ensures
            s.bits == bits,
    {
        Status { bits }
    }

    /// Whether every flag in `flags` is set.
    pub fn contains(&self, flags: u8) -> (b: bool)
        ensures
            b == (self.bits & flags == flags),
    {
        self.bits & flags == flags
    }

    /// Sets the flags in `flags` when `on`, clears them otherwise.
    pub fn set(&mut self, flags: u8, on: bool)
        ensures
            final(self).bits == set_bits(old(self).bits, flags, on),
    {
        if on {
            self.bits = self.bits | flags;
        } else {
            self.bits = self.bits & !flags;
        }
    }
}

impl Default for Status {
    fn default() -> (s: Self)
        ensures
            s.bits == 0,
    {
        Status { bits: 0 }
    }
}

/// Interrupt and DMA state, kept as one byte because it is tested on every cycle.
///
/// The `PREV_` flags are the previous cycle's values, which is what makes an interrupt take
/// effect one instruction late the way the hardware does.
#[derive(Debug, Copy, Clone, PartialEq, Eq, Structural)]
pub struct IrqFlags {
    pub bits: u8,
}

impl IrqFlags {
    /// NMI line asserted.
    pub const NMI: u8 = 0x01;
    /// NMI line as of the previous cycle.
    pub const PREV_NMI: u8 = 0x02;
    /// NMI was pending as of the previous cycle.
    pub const PREV_NMI_PENDING: u8 = 0x04;
    /// An IRQ will be serviced after the current instruction.
    pub const RUN_IRQ: u8 = 0x08;
    /// `RUN_IRQ` as of the previous cycle.
    pub const PREV_RUN_IRQ: u8 = 0x10;
    /// A DMC sample fetch is stealing cycles.
    pub const DMA_DMC: u8 = 0x20;
    /// The CPU is halted for a DMA.
    pub const DMA_HALT: u8 = 0x40;
    /// The DMA's alignment dummy read.
    pub const DMA_DUMMY_READ: u8 = 0x80;

    /// Whether every flag in `flags` is set.
    pub fn contains(&self, flags: u8) -> (b: bool)
        ensures
            b == (self.bits & flags == flags),
    {
        self.bits & flags == flags
    }

    /// Clears the flags in `flags`.
    pub fn remove(&mut self, flags: u8)
        ensures
            final(self).bits == old(self).bits & !flags,
    {
        self.bits = self.bits & !flags;
    }
}

impl Default for IrqFlags {
    fn default() -> (f: Self)
        ensures
            f.bits == 0,
    {
        IrqFlags { bits: 0 }
    }
}

/// The CPU state as a mathematical value, memory as a sequence of bytes.
pub struct CpuView {
    pub cycle: u32,
    pub master_clock: u32,
    pub pc: u16,
    pub operand: u16,
    pub start_cycles: u8,
    pub end_cycles: u8,
    pub addr_mode: AddrMode,
    pub sp: u8,
    pub acc: u8,
    pub x: u8,
    pub y: u8,
    pub status: u8,
    pub irq_flags: u8,
    pub dma_oam_addr: Option<u16>,
    pub corrupted: bool,
    pub mem: Seq<u8>,
}

/// The little-endian word of two bytes.
pub open spec fn le_word(lo: u8, hi: u8) -> u16 {
    (hi * 256 + lo) as u16
}

/// The stack address the stack pointer names.
pub open spec fn stack_addr(sp: u8) -> u16 {
    (0x0100 + sp) as u16
}

/// Whether an addressing mode takes its operand from the instruction rather than from memory.
pub open spec fn operand_is_immediate(mode: AddrMode) -> bool {
    mode == AddrMode::ACC || mode == AddrMode::IMP || mode == AddrMode::IMM || mode == AddrMode::REL
}

impl CpuView {
    /// One more bus cycle.
    pub open spec fn tick(self) -> CpuView {
        CpuView { cycle: self.cycle.wrapping_add(1), ..self }
    }

    /// The byte at `addr`, reached through the work RAM and PPU register mirrors.
    pub open spec fn at(self, addr: u16) -> u8 {
        self.mem[mirrored(addr) as int]
    }

    /// The little-endian word at `addr`, its high byte from the next address.
    pub open spec fn word_at(self, addr: u16) -> u16 {
        le_word(self.at(addr), self.at(addr.wrapping_add(1)))
    }

    /// After writing `val` to `addr`, through the mirrors, which takes a bus cycle.
    pub open spec fn written(self, addr: u16, val: u8) -> CpuView {
        CpuView { mem: self.mem.update(mirrored(addr) as int, val), cycle: self.cycle.wrapping_add(1), ..self }
    }

    /// Whether every flag in `flags` is set.
    pub open spec fn flag(self, flags: u8) -> bool {
        self.status & flags == flags
    }

    /// With the status flags in `flags` set or cleared.
    pub open spec fn with_flag(self, flags: u8, on: bool) -> CpuView {
        CpuView { status: set_bits(self.status, flags, on), ..self }
    }

    /// With Z and N describing `val`.
    pub open spec fn with_zn(self, val: u8) -> CpuView {
        self.with_flag(Status::Z, val == 0).with_flag(Status::N, val & 0x80 > 0)
    }

    /// With the accumulator loaded and Z and N describing it.
    pub open spec fn with_acc(self, val: u8) -> CpuView {
        CpuView { acc: val, ..self.with_zn(val) }
    }

    /// With X loaded and Z and N describing it.
    pub open spec fn with_x(self, val: u8) -> CpuView {
        CpuView { x: val, ..self.with_zn(val) }
    }

    /// With Y loaded and Z and N describing it.
    pub open spec fn with_y(self, val: u8) -> CpuView {
        CpuView { y: val, ..self.with_zn(val) }
    }

    /// The carry as 0 or 1.
    pub open spec fn carry(self) -> u8 {
        self.status & Status::C
    }

    /// The value an instruction works on: the operand itself in the immediate-like modes,
    /// otherwise the byte at the operand address.
    pub open spec fn operand_value(self) -> u8 {
        if operand_is_immediate(self.addr_mode) { self.operand as u8 } else { self.at(self.operand) }
    }

    /// After fetching the operand value, which costs a bus cycle when it is read from memory.
    pub open spec fn operand_read(self) -> CpuView {
        if operand_is_immediate(self.addr_mode) { self } else { self.tick() }
    }

    /// After pushing `val`: written at the stack pointer, which then moves down.
    pub open spec fn pushed(self, val: u8) -> CpuView {
        CpuView { sp: self.sp.wrapping_sub(1), ..self.written(stack_addr(self.sp), val) }
    }

    /// The byte a pull returns.
    pub open spec fn top(self) -> u8 {
        self.at(stack_addr(self.sp.wrapping_add(1)))
    }

    /// After pulling a byte: the stack pointer moves up and the read takes a bus cycle.
    pub open spec fn pulled(self) -> CpuView {
        CpuView { sp: self.sp.wrapping_add(1), ..self.tick() }
    }

    /// After pushing a word, high byte first.
    pub open spec fn pushed_word(self, val: u16) -> CpuView {
        self.pushed((val / 256) as u8).pushed((val % 256) as u8)
    }

    /// The word two pulls return, low byte first.
    pub open spec fn top_word(self) -> u16 {
        le_word(self.top(), self.pulled().top())
    }
}

/// The Central Processing Unit status and registers, and the memory it addresses.
#[derive(Debug, Clone)]
pub struct Cpu {
    /// Total CPU cycles run.
    pub cycle: u32,
    /// Master clock cycles run, which is what the PPU and APU are caught up against.
    pub master_clock: u32,
    /// Program counter.
    pub pc: u16,
    /// The current instruction's operand.
    pub operand: u16,
    /// Master cycles before a read or write within the current instruction.
    pub start_cycles: u8,
    /// Master cycles after a read or write within the current instruction.
    pub end_cycles: u8,
    /// The current instruction's addressing mode.
    pub addr_mode: AddrMode,
    /// Stack pointer; the stack itself is at $0100-$01FF.
    pub sp: u8,
    /// Accumulator.
    pub acc: u8,
    /// X index register.
    pub x: u8,
    /// Y index register.
    pub y: u8,
    /// Status register.
    pub status: Status,
    /// Interrupt and DMA state.
    pub irq_flags: IrqFlags,
    /// Source page of an OAM DMA in progress.
    pub dma_oam_addr: Option<u16>,
    /// Set when an invalid opcode has jammed the CPU.
    pub corrupted: bool,
    /// The 64 KiB the CPU addresses. Reads and writes fold the work RAM mirrors
    /// (`$0800-$1FFF`) and the PPU register mirrors (`$2008-$3FFF`) onto the addresses they
    /// repeat, so the bytes behind the mirrors are never reached.
    pub mem: Vec<u8>,
}

impl View for Cpu {
    type V = CpuView;

    open spec fn view(&self) -> CpuView {
        CpuView {
            cycle: self.cycle,
            master_clock: self.master_clock,
            pc: self.pc,
            operand: self.operand,
            start_cycles: self.start_cycles,
            end_cycles: self.end_cycles,
            addr_mode: self.addr_mode,
            sp: self.sp,
            acc: self.acc,
            x: self.x,
            y: self.y,
            status: self.status.bits,
            irq_flags: self.irq_flags.bits,
            dma_oam_addr: self.dma_oam_addr,
            corrupted: self.corrupted,
            mem: self.mem@,
        }
    }
}

/// The master-cycle split of a CPU cycle for `region`.
pub open spec fn region_cycles(region: NesRegion) -> (u8, u8) {
    match region {
        NesRegion::Pal => (8, 8),
        NesRegion::Dendy => (7, 8),
        _ => (6, 6),
    }
}

impl Cpu {
    /// NMI vector address.
    pub const NMI_VECTOR: u16 = 0xFFFA;
    /// IRQ vector address.
    pub const IRQ_VECTOR: u16 = 0xFFFE;
    /// Reset vector address.
    pub const RESET_VECTOR: u16 = 0xFFFC;
    /// Power on status register value: U and I.
    pub const POWER_ON_STATUS: u8 = 0x24;
    /// Power on stack pointer value.
    pub const POWER_ON_SP: u8 = 0xFD;
    /// Stack Pointer base address.
    pub const SP_BASE: u16 = 0x0100;
    /// `JSR` opcode, jumps to location, save return address.
    pub const JSR: u8 = 0x20;
    /// `RTI` opcode, return from interrupt.
    pub const RTI: u8 = 0x40;
    /// `RTS` opcode, return from subroutine.
    pub const RTS: u8 = 0x60;
    /// Bytes the CPU addresses.
    pub const MEM_SIZE: usize = 0x10000;

    /// The memory covers the whole address space.
    pub open spec fn wf(&self) -> bool {
        self.mem@.len() == 0x10000
    }

    /// A CPU timed for `region` at power-on, with zeroed memory.
    pub fn new(region: NesRegion) -> (cpu: Self)
        ensures
            cpu.wf(),
            cpu@.mem == Seq::new(0x10000, |_i: int| 0u8),
            cpu@.cycle == 0 && cpu@.master_clock == 0 && cpu@.pc == 0 && cpu@.operand == 0,
            cpu@.sp == 0 && cpu@.acc == 0 && cpu@.x == 0 && cpu@.y == 0,
            cpu@.status == Cpu::POWER_ON_STATUS,
            cpu@.irq_flags == 0,
            cpu@.dma_oam_addr is None,
            !cpu@.corrupted,
            cpu@.addr_mode == AddrMode::IMM,
            (cpu@.start_cycles, cpu@.end_cycles) == region_cycles(region),
    {
        let mut cpu = Self {
            cycle: 0,
            master_clock: 0,
            pc: 0x0000,
            operand: 0,
            start_cycles: 6,
            end_cycles: 6,
            addr_mode: AddrMode::IMM,
            sp: 0x00,
            acc: 0x00,
            x: 0x00,
            y: 0x00,
            status: Status { bits: Self::POWER_ON_STATUS },
            irq_flags: IrqFlags { bits: 0 },
            dma_oam_addr: None,
            corrupted: false,
            mem: vec![0u8; Self::MEM_SIZE],
        };
        proof {
            assert(cpu.mem@ =~= Seq::new(0x10000, |_i: int| 0u8));
        }
        cpu.set_region(region);
        cpu
    }

    /// Re-times the CPU for `region`.
    pub fn set_region(&mut self, region: NesRegion)
        ensures
            final(self)@ == (CpuView { start_cycles: region_cycles(region).0, end_cycles: region_cycles(region).1, ..old(self)@ }),
            final(self).mem@ == old(self).mem@,
    {
        let (start_cycles, end_cycles) = match region {
            NesRegion::Pal => (8u8, 8u8),
            NesRegion::Dendy => (7u8, 8u8),
            _ => (6u8, 6u8),
        };
        self.start_cycles = start_cycles;
        self.end_cycles = end_cycles;
    }

    /// Resets the registers. A soft reset sets I and moves the stack pointer down three, as the
    /// reset sequence's suppressed pushes do; a hard one restores the power-on registers.
    pub fn reset(&mut self, kind: ResetKind)
        ensures
            final(self).mem@ == old(self).mem@,
            kind == ResetKind::Soft ==> final(self)@ == (CpuView {
                status: old(self)@.status | Status::I,
                sp: old(self)@.sp.wrapping_sub(3),
                cycle: 0,
                master_clock: 0,
                irq_flags: 0,
                corrupted: false,
                ..old(self)@
            }),
            kind == ResetKind::Hard ==> final(self)@ == (CpuView {
                acc: 0,
                x: 0,
                y: 0,
                status: Cpu::POWER_ON_STATUS,
                sp: Cpu::POWER_ON_SP,
                cycle: 0,
                master_clock: 0,
                irq_flags: 0,
                corrupted: false,
                ..old(self)@
            }),
    {
        match kind {
            ResetKind::Soft => {
                self.status.set(Status::I, true);
                self.sp = self.sp.wrapping_sub(0x03);
            },
            ResetKind::Hard => {
                self.acc = 0x00;
                self.x = 0x00;
                self.y = 0x00;
                self.status = Status { bits: Self::POWER_ON_STATUS };
                self.sp = Self::POWER_ON_SP;
            },
        }
        self.cycle = 0;
        self.master_clock = 0;
        self.irq_flags = IrqFlags { bits: 0 };
        self.corrupted = false;
    }

    /// Starts an OAM DMA from page `addr`, halting the CPU for it.
    pub fn start_oam_dma(&mut self, addr: u16)
        ensures
            final(self)@ == (CpuView { irq_flags: old(self)@.irq_flags | IrqFlags::DMA_HALT, dma_oam_addr: Some(addr), ..old(self)@ }),
    {
        self.irq_flags.bits = self.irq_flags.bits | IrqFlags::DMA_HALT;
        self.dma_oam_addr = Some(addr);
    }

    /// Clears the interrupt flags in `flags`.
    pub fn clear_irq_flags(&mut self, flags: u8)
        ensures
            final(self)@ == (CpuView { irq_flags: old(self)@.irq_flags & !flags, ..old(self)@ }),
    {
        self.irq_flags.remove(flags);
    }

    /// Whether every interrupt flag in `flags` is set.
    pub fn irq_flags(&self, flags: u8) -> (b: bool)
        ensures
            b == (self.irq_flags.bits & flags == flags),
    {
        self.irq_flags.contains(flags)
    }

    /// Loads the status register, except B and U, which exist only on the stack.
    pub fn set_status(&mut self, status: Status)
        ensures
            final(self)@ == (CpuView { status: status.bits & !Status::U & !Status::B, ..old(self)@ }),
    {
        self.status = Status { bits: status.bits & !Status::U & !Status::B };
    }

    /// The status bits selected by `reg`.
    pub fn status_bit(&self, reg: u8) -> (b: u8)
        ensures
            b == self.status.bits & reg,
    {
        self.status.bits & reg
    }

    /// Loads the accumulator, setting Z and N from it.
    pub fn set_acc(&mut self, val: u8)
        ensures
            final(self)@ == old(self)@.with_acc(val),
    {
        self.set_zn_status(val);
        self.acc = val;
    }

    /// Loads X, setting Z and N from it.
    pub fn set_x(&mut self, val: u8)
        ensures
            final(self)@ == old(self)@.with_x(val),
    {
        self.set_zn_status(val);
        self.x = val;
    }

    /// Loads Y, setting Z and N from it.
    pub fn set_y(&mut self, val: u8)
        ensures
            final(self)@ == old(self)@.with_y(val),
    {
        self.set_zn_status(val);
        self.y = val;
    }

    /// Loads the stack pointer; no flags change.
    pub fn set_sp(&mut self, val: u8)
        ensures
            final(self)@ == (CpuView { sp: val, ..old(self)@ }),
    {
        self.sp = val;
    }

    /// Sets Z when `val` is zero and N to its bit 7.
    pub fn set_zn_status(&mut self, val: u8)
        ensures
            final(self)@ == old(self)@.with_zn(val),
    {
        self.status.set(Status::Z, val == 0x00);
        self.status.set(Status::N, val & 0x80 > 0);
    }

    /// Whether two addresses are on different 256-byte pages.
    pub fn pages_differ(addr1: u16, addr2: u16) -> (b: bool)
        ensures
            b == (addr1 / 256 != addr2 / 256),
    {
        proof {
            assert((addr1 & 0xFF00) == (addr2 & 0xFF00) <==> addr1 / 256 == addr2 / 256) by (bit_vector);
        }
        (addr1 & 0xFF00) != (addr2 & 0xFF00)
    }

    /// Whether moving `addr` by the signed `offset` lands on another page.
    pub fn page_crossed(addr: u16, offset: i16) -> (b: bool)
        ensures
            b == (addr / 256 != (if offset >= 0 { addr.wrapping_add(offset as u16) } else { addr.wrapping_sub((-offset) as u16) }) / 256),
    {
        let target = if offset >= 0 {
            addr.wrapping_add(offset as u16)
        } else {
            let back = (-(offset as i32)) as u16;
            addr.wrapping_sub(back)
        };
        Self::pages_differ(addr, target)
    }

    /// Reads a byte, which takes a bus cycle.
    pub fn read(&mut self, addr: u16) -> (val: u8)
        requires
            old(self).wf(),
        ensures
            final(self).wf(),
            val == old(self)@.at(addr),
            final(self)@ == old(self)@.tick(),
    {
        self.cycle = self.cycle.wrapping_add(1);
        self.mem[mirror(addr) as usize]
    }

    /// Reads a byte without spending a cycle.
    pub fn peek(&self, addr: u16) -> (val: u8)
        requires
            self.wf(),
        ensures
            val == self@.at(addr),
    {
        self.mem[mirror(addr) as usize]
    }

    /// Writes a byte, which takes a bus cycle.
    pub fn write(&mut self, addr: u16, val: u8)
        requires
            old(self).wf(),
        ensures
            final(self).wf(),
            final(self)@ == old(self)@.written(addr, val),
    {
        self.cycle = self.cycle.wrapping_add(1);
        self.mem.set(mirror(addr) as usize, val);
    }

    /// Reads the byte at PC and moves PC past it.
    pub fn fetch_byte(&mut self) -> (val: u8)
        requires
            old(self).wf(),
        ensures
            final(self).wf(),
            val == old(self)@.at(old(self)@.pc),
            final(self)@ == (CpuView { pc: old(self)@.pc.wrapping_add(1), ..old(self)@.tick() }),
    {
        let pc = self.pc;
        let val = self.read(pc);
        self.pc = self.pc.wrapping_add(1);
        val
    }

    /// Reads the little-endian word at PC and moves PC past it.
    pub fn fetch_word(&mut self) -> (val: u16)
        requires
            old(self).wf(),
        ensures
            final(self).wf(),
            val == old(self)@.word_at(old(self)@.pc),
            final(self)@ == (CpuView { pc: old(self)@.pc.wrapping_add(2), ..old(self)@.tick().tick() }),
    {
        let lo = self.fetch_byte();
        let hi = self.fetch_byte();
        proof {
            let p = old(self)@.pc;
            assert(p.wrapping_add(1).wrapping_add(1) == p.wrapping_add(2));
        }
        (hi as u16) * 256 + (lo as u16)
    }

    /// Reads a little-endian word, taking two bus cycles.
    pub fn read_word(&mut self, addr: u16) -> (val: u16)
        requires
            old(self).wf(),
        ensures
            final(self).wf(),
            val == old(self)@.word_at(addr),
            final(self)@ == old(self)@.tick().tick(),
    {
        let lo = self.read(addr);
        let hi = self.read(addr.wrapping_add(1));
        (hi as u16) * 256 + (lo as u16)
    }

    /// Reads a little-endian word without spending cycles.
    pub fn peek_word(&self, addr: u16) -> (val: u16)
        requires
            self.wf(),
        ensures
            val == self@.word_at(addr),
    {
        let lo = self.peek(addr);
        let hi = self.peek(addr.wrapping_add(1));
        (hi as u16) * 256 + (lo as u16)
    }

    /// The value the current instruction works on: its operand in the immediate-like modes,
    /// otherwise the byte the operand addresses.
    pub fn read_operand(&mut self) -> (val: u8)
        requires
            old(self).wf(),
        ensures
            final(self).wf(),
            val == old(self)@.operand_value(),
            final(self)@ == old(self)@.operand_read(),
    {
        match self.addr_mode {
            AddrMode::ACC | AddrMode::IMP | AddrMode::IMM | AddrMode::REL => self.operand as u8,
            _ => {
                let operand = self.operand;
                self.read(operand)
            },
        }
    }

    /// Pushes a byte onto the stack.
    pub fn push_byte(&mut self, val: u8)
        requires
            old(self).wf(),
        ensures
            final(self).wf(),
            final(self)@ == old(self)@.pushed(val),
    {
        let addr = Self::SP_BASE + self.sp as u16;
        self.write(addr, val);
        self.sp = self.sp.wrapping_sub(1);
    }

    /// Pulls a byte from the stack.
    pub fn pop_byte(&mut self) -> (val: u8)
        requires
            old(self).wf(),
        ensures
            final(self).wf(),
            val == old(self)@.top(),
            final(self)@ == old(self)@.pulled(),
    {
        self.sp = self.sp.wrapping_add(1);
        let addr = Self::SP_BASE + self.sp as u16;
        self.read(addr)
    }

    /// The byte at the top of the stack, without pulling it.
    pub fn peek_stack(&self) -> (val: u8)
        requires
            self.wf(),
        ensures
            val == self@.top(),
    {
        self.peek(Self::SP_BASE + self.sp.wrapping_add(1) as u16)
    }

    /// Pushes a word onto the stack, high byte first.
    pub fn push_word(&mut self, val: u16)
        requires
            old(self).wf(),
        ensures
            final(self).wf(),
            final(self)@ == old(self)@.pushed_word(val),
    {
        let lo = (val % 256) as u8;
        let hi = (val / 256) as u8;
        self.push_byte(hi);
        self.push_byte(lo);
    }

    /// Pulls a word from the stack, low byte first.
    pub fn pop_word(&mut self) -> (val: u16)
        requires
            old(self).wf(),
        ensures
            final(self).wf(),
            val == old(self)@.top_word(),
            final(self)@ == old(self)@.pulled().pulled(),
    {
        let lo = self.pop_byte();
        let hi = self.pop_byte();
        (hi as u16) * 256 + (lo as u16)
    }
}

/// What the CPU writes to an address it reads back from that address and from every mirror of
/// it, and a write leaves every address that does not share its place alone.
pub proof fn lemma_a_write_reads_back_through_the_mirrors(s: CpuView, addr: u16, other: u16, val: u8)
    requires
        s.mem.len() == 0x10000,
    ensures
        mirrored(other) == mirrored(addr) ==> s.written(addr, val).at(other) == val,
        mirrored(other) != mirrored(addr) ==> s.written(addr, val).at(other) == s.at(other),
        addr < 0x2000 && other < 0x2000 && addr % 0x800 == other % 0x800 ==> mirrored(other) == mirrored(addr),
{
}

/// Pushing a byte and pulling it straight back returns it and restores the stack pointer.
pub proof fn lemma_push_then_pull(s: CpuView, val: u8)
    requires
        s.mem.len() == 0x10000,
    ensures
        s.pushed(val).top() == val,
        s.pushed(val).pulled().sp == s.sp,
{
    let t = s.pushed(val);
    assert(s.sp.wrapping_sub(1).wrapping_add(1) == s.sp);
}

/// Pushing a word and pulling a word straight back returns it and restores the stack pointer.
pub proof fn lemma_push_word_then_pull_word(s: CpuView, val: u16)
    requires
        s.mem.len() == 0x10000,
    ensures
        s.pushed_word(val).top_word() == val,
        s.pushed_word(val).pulled().pulled().sp == s.sp,
{
    let hi = (val / 256) as u8;
    let lo = (val % 256) as u8;
    let t1 = s.pushed(hi);
    let t2 = t1.pushed(lo);
    assert(t2.top() == lo);
    assert(s.sp.wrapping_sub(1).wrapping_sub(1).wrapping_add(1).wrapping_add(1) == s.sp);
    assert(stack_addr(t2.sp.wrapping_add(1).wrapping_add(1)) == stack_addr(s.sp));
    assert(stack_addr(t2.sp.wrapping_add(1)) != stack_addr(s.sp));
    assert(t2.pulled().top() == hi);
}

} // verus!
