//! CPU addressing modes and operations.
//!
//! Each operation is given twice: as a spec function from the CPU state before to the state
//! after, which is what the instruction set documents, and as the method that carries it out,
//! proved to match.
use vstd::prelude::*;
use crate::common::push_char;
use crate::bus::mirrored;
use crate::cpu::{Cpu, CpuView, IrqFlags, Status, le_word, set_bits, stack_addr};

verus! {

/// List of all CPU official and unofficial operations.
#[derive(Copy, Clone, Debug, PartialEq, Eq, Structural)]
pub enum Instr {
    ADC, AND, ASL, BCC, BCS, BEQ, BIT, BMI, BNE, BPL, BRK, BVC, BVS, CLC, CLD, CLI, CLV, CMP, CPX,
    CPY, DEC, DEX, DEY, EOR, INC, INX, INY, JMP, JSR, LDA, LDX, LDY, LSR, NOP, ORA, PHA, PHP, PLA,
    PLP, ROL, ROR, RTI, RTS, SBC, SEC, SED, SEI, STA, STX, STY, TAX, TAY, TSX, TXA, TXS, TYA,
    ISB, DCP, AXS, LAS, LAX, AHX, SAX, XAA, SXA, RRA, TAS, SYA, ARR, SRE, ALR, RLA, ANC, SHAZ, ATX,
    SHAA, SLO, HLT,
}

impl Default for Instr {
    fn default() -> (i: Self)
        ensures
            i == Instr::HLT,
    {
        Instr::HLT
    }
}

/// CPU Addressing mode.
#[derive(Debug, Copy, Clone, PartialEq, Eq, Structural)]
pub enum AddrMode {
    /// Accumulator.
    ACC,
    /// Implied.
    IMP,
    /// Immediate.
    IMM,
    /// Relative, for branches.
    REL,
    /// Zero page.
    ZP0,
    /// Absolute.
    ABS,
    /// Zero page indexed by X.
    ZPX,
    /// Zero page indexed by Y.
    ZPY,
    /// Indirect, for `JMP`.
    IND,
    /// Indexed indirect by X.
    IDX,
    /// Indirect indexed by Y, for reads.
    IDY,
    /// Indirect indexed by Y, for writes.
    IDYW,
    /// Absolute indexed by X, for reads.
    ABX,
    /// Absolute indexed by X, for writes.
    ABXW,
    /// Absolute indexed by Y, for reads.
    ABY,
    /// Absolute indexed by Y, for writes.
    ABYW,
    /// Special address mode, handled by the operation itself.
    OTH,
}

impl Default for AddrMode {
    fn default() -> (m: Self)
        ensures
            m == AddrMode::IMM,
    {
        AddrMode::IMM
    }
}

/// CPU Instruction Reference: what an opcode is, and its base cycle count.
#[derive(Debug, Copy, Clone, PartialEq, Eq, Structural)]
pub struct InstrRef {
    pub opcode: u8,
    pub instr: Instr,
    pub addr_mode: AddrMode,
    pub cycles: u8,
}

/// The mnemonic of `instr`, as the instruction trace writes it.
pub open spec fn instr_name(instr: Instr) -> Seq<char> {
    match instr {
        Instr::ADC => "ADC"@,
        Instr::AND => "AND"@,
        Instr::ASL => "ASL"@,
        Instr::BCC => "BCC"@,
        Instr::BCS => "BCS"@,
        Instr::BEQ => "BEQ"@,
        Instr::BIT => "BIT"@,
        Instr::BMI => "BMI"@,
        Instr::BNE => "BNE"@,
        Instr::BPL => "BPL"@,
        Instr::BRK => "BRK"@,
        Instr::BVC => "BVC"@,
        Instr::BVS => "BVS"@,
        Instr::CLC => "CLC"@,
        Instr::CLD => "CLD"@,
        Instr::CLI => "CLI"@,
        Instr::CLV => "CLV"@,
        Instr::CMP => "CMP"@,
        Instr::CPX => "CPX"@,
        Instr::CPY => "CPY"@,
        Instr::DEC => "DEC"@,
        Instr::DEX => "DEX"@,
        Instr::DEY => "DEY"@,
        Instr::EOR => "EOR"@,
        Instr::INC => "INC"@,
        Instr::INX => "INX"@,
        Instr::INY => "INY"@,
        Instr::JMP => "JMP"@,
        Instr::JSR => "JSR"@,
        Instr::LDA => "LDA"@,
        Instr::LDX => "LDX"@,
        Instr::LDY => "LDY"@,
        Instr::LSR => "LSR"@,
        Instr::NOP => "NOP"@,
        Instr::ORA => "ORA"@,
        Instr::PHA => "PHA"@,
        Instr::PHP => "PHP"@,
        Instr::PLA => "PLA"@,
        Instr::PLP => "PLP"@,
        Instr::ROL => "ROL"@,
        Instr::ROR => "ROR"@,
        Instr::RTI => "RTI"@,
        Instr::RTS => "RTS"@,
        Instr::SBC => "SBC"@,
        Instr::SEC => "SEC"@,
        Instr::SED => "SED"@,
        Instr::SEI => "SEI"@,
        Instr::STA => "STA"@,
        Instr::STX => "STX"@,
        Instr::STY => "STY"@,
        Instr::TAX => "TAX"@,
        Instr::TAY => "TAY"@,
        Instr::TSX => "TSX"@,
        Instr::TXA => "TXA"@,
        Instr::TXS => "TXS"@,
        Instr::TYA => "TYA"@,
        Instr::ISB => "ISB"@,
        Instr::DCP => "DCP"@,
        Instr::AXS => "AXS"@,
        Instr::LAS => "LAS"@,
        Instr::LAX => "LAX"@,
        Instr::AHX => "AHX"@,
        Instr::SAX => "SAX"@,
        Instr::XAA => "XAA"@,
        Instr::SXA => "SXA"@,
        Instr::RRA => "RRA"@,
        Instr::TAS => "TAS"@,
        Instr::SYA => "SYA"@,
        Instr::ARR => "ARR"@,
        Instr::SRE => "SRE"@,
        Instr::ALR => "ALR"@,
        Instr::RLA => "RLA"@,
        Instr::ANC => "ANC"@,
        Instr::SHAZ => "SHAZ"@,
        Instr::ATX => "ATX"@,
        Instr::SHAA => "SHAA"@,
        Instr::SLO => "SLO"@,
        Instr::HLT => "HLT"@,
    }
}

/// Whether `ir` is outside the documented instruction set: the undocumented operations, every
/// `NOP` but `$EA`, and the `SBC` copy at `$EB`.
pub open spec fn is_unofficial(ir: InstrRef) -> bool {
    match ir.instr {
        Instr::ISB | Instr::DCP | Instr::AXS | Instr::LAS | Instr::LAX | Instr::AHX | Instr::SAX | Instr::XAA | Instr::SXA | Instr::RRA | Instr::TAS | Instr::SYA | Instr::ARR | Instr::SRE | Instr::ALR | Instr::RLA | Instr::ANC | Instr::SHAZ | Instr::ATX | Instr::SHAA | Instr::SLO | Instr::HLT => true,
        Instr::NOP => ir.opcode != 0xEA,
        Instr::SBC => ir.opcode == 0xEB,
        _ => false,
    }
}

/// An instruction as the trace writes it: a `*` column marking an undocumented one, then the
/// mnemonic.
pub open spec fn instr_text(ir: InstrRef) -> Seq<char> {
    seq![if is_unofficial(ir) { '*' } else { ' ' }] + instr_name(ir.instr)
}

impl Instr {
    /// The mnemonic.
    pub fn name(&self) -> (s: &'static str)
        ensures
            s@ == instr_name(*self),
    {
        match self {
            Instr::ADC => "ADC",
            Instr::AND => "AND",
            Instr::ASL => "ASL",
            Instr::BCC => "BCC",
            Instr::BCS => "BCS",
            Instr::BEQ => "BEQ",
            Instr::BIT => "BIT",
            Instr::BMI => "BMI",
            Instr::BNE => "BNE",
            Instr::BPL => "BPL",
            Instr::BRK => "BRK",
            Instr::BVC => "BVC",
            Instr::BVS => "BVS",
            Instr::CLC => "CLC",
            Instr::CLD => "CLD",
            Instr::CLI => "CLI",
            Instr::CLV => "CLV",
            Instr::CMP => "CMP",
            Instr::CPX => "CPX",
            Instr::CPY => "CPY",
            Instr::DEC => "DEC",
            Instr::DEX => "DEX",
            Instr::DEY => "DEY",
            Instr::EOR => "EOR",
            Instr::INC => "INC",
            Instr::INX => "INX",
            Instr::INY => "INY",
            Instr::JMP => "JMP",
            Instr::JSR => "JSR",
            Instr::LDA => "LDA",
            Instr::LDX => "LDX",
            Instr::LDY => "LDY",
            Instr::LSR => "LSR",
            Instr::NOP => "NOP",
            Instr::ORA => "ORA",
            Instr::PHA => "PHA",
            Instr::PHP => "PHP",
            Instr::PLA => "PLA",
            Instr::PLP => "PLP",
            Instr::ROL => "ROL",
            Instr::ROR => "ROR",
            Instr::RTI => "RTI",
            Instr::RTS => "RTS",
            Instr::SBC => "SBC",
            Instr::SEC => "SEC",
            Instr::SED => "SED",
            Instr::SEI => "SEI",
            Instr::STA => "STA",
            Instr::STX => "STX",
            Instr::STY => "STY",
            Instr::TAX => "TAX",
            Instr::TAY => "TAY",
            Instr::TSX => "TSX",
            Instr::TXA => "TXA",
            Instr::TXS => "TXS",
            Instr::TYA => "TYA",
            Instr::ISB => "ISB",
            Instr::DCP => "DCP",
            Instr::AXS => "AXS",
            Instr::LAS => "LAS",
            Instr::LAX => "LAX",
            Instr::AHX => "AHX",
            Instr::SAX => "SAX",
            Instr::XAA => "XAA",
            Instr::SXA => "SXA",
            Instr::RRA => "RRA",
            Instr::TAS => "TAS",
            Instr::SYA => "SYA",
            Instr::ARR => "ARR",
            Instr::SRE => "SRE",
            Instr::ALR => "ALR",
            Instr::RLA => "RLA",
            Instr::ANC => "ANC",
            Instr::SHAZ => "SHAZ",
            Instr::ATX => "ATX",
            Instr::SHAA => "SHAA",
            Instr::SLO => "SLO",
            Instr::HLT => "HLT",
        }
    }
}

impl InstrRef {
    /// Whether this is outside the documented instruction set.
    pub fn is_unofficial(&self) -> (b: bool)
        ensures
            b == is_unofficial(*self),
    {
        match self.instr {
            Instr::ISB | Instr::DCP | Instr::AXS | Instr::LAS | Instr::LAX | Instr::AHX | Instr::SAX | Instr::XAA | Instr::SXA | Instr::RRA | Instr::TAS | Instr::SYA | Instr::ARR | Instr::SRE | Instr::ALR | Instr::RLA | Instr::ANC | Instr::SHAZ | Instr::ATX | Instr::SHAA | Instr::SLO | Instr::HLT => true,
            Instr::NOP => self.opcode != 0xEA,
            Instr::SBC => self.opcode == 0xEB,
            _ => false,
        }
    }

    /// The instruction as the trace writes it, `*` column and mnemonic.
    pub fn text(&self) -> (s: String)
        ensures
            s@ == instr_text(*self),
    {
        let mut s = String::new();
        push_char(&mut s, if self.is_unofficial() { '*' } else { ' ' });
        s.append(self.instr.name());
        s
    }
}

/// The byte a spec shift left produces.
pub open spec fn shl1(val: u8) -> u8 {
    ((val as int * 2) % 256) as u8
}

/// Where a taken branch lands: PC moved by the operand read as a signed byte.
pub open spec fn branch_target(pc: u16, offset: u8) -> u16 {
    if offset < 128 { pc.wrapping_add(offset as u16) } else { pc.wrapping_sub((256 - offset) as u16) }
}

/// The state after adding `val` and the carry to the accumulator: C is the carry out of bit
/// 7, V is set when both inputs share a sign the sum does not.
pub open spec fn added(s: CpuView, val: u8) -> CpuView {
    let a = s.acc as u16;
    let v = val as u16;
    let res = (a + v + s.carry()) as u16;
    s.with_flag(Status::V, (a ^ v) & 0x80 == 0 && (a ^ res) & 0x80 != 0)
        .with_flag(Status::C, res > 0xFF)
        .with_acc((res % 256) as u8)
}

/// The state after comparing `reg` with `val`: C when `reg >= val`, Z and N from the
/// difference.
pub open spec fn compared(s: CpuView, reg: u8, val: u8) -> CpuView {
    s.with_flag(Status::C, reg >= val).with_zn(reg.wrapping_sub(val))
}

/// Shifts left, bit 7 into C.
pub open spec fn asl_result(s: CpuView, val: u8) -> (CpuView, u8) {
    let r = shl1(val);
    (s.with_flag(Status::C, val & 0x80 > 0).with_zn(r), r)
}

/// Shifts right, bit 0 into C.
pub open spec fn lsr_result(s: CpuView, val: u8) -> (CpuView, u8) {
    let r = val / 2;
    (s.with_flag(Status::C, val & 1 > 0).with_zn(r), r)
}

/// Rotates left through C.
pub open spec fn rol_result(s: CpuView, val: u8) -> (CpuView, u8) {
    let r = (shl1(val) + s.carry()) as u8;
    (s.with_flag(Status::C, val & 0x80 > 0).with_zn(r), r)
}

/// Rotates right through C.
pub open spec fn ror_result(s: CpuView, val: u8) -> (CpuView, u8) {
    let r = (val / 2 + s.carry() * 128) as u8;
    (s.with_flag(Status::C, val & 1 > 0).with_zn(r), r)
}

/// A read-modify-write on the operand address: the read, the dummy write of the old value, the
/// operation on the state and value, then the write of the new value.
pub open spec fn rmw(s: CpuView, step: (CpuView, u8)) -> CpuView {
    step.0.written(s.operand, step.1)
}

/// The state a taken or untaken branch leaves.
pub open spec fn branched(s: CpuView, taken: bool) -> CpuView {
    if !taken {
        s
    } else {
        let irq = if s.irq_flags & IrqFlags::RUN_IRQ == IrqFlags::RUN_IRQ && s.irq_flags & IrqFlags::PREV_RUN_IRQ != IrqFlags::PREV_RUN_IRQ {
            s.irq_flags & !IrqFlags::RUN_IRQ
        } else {
            s.irq_flags
        };
        let target = branch_target(s.pc, s.operand as u8);
        let t = CpuView { irq_flags: irq, ..s.tick() };
        let t = if t.pc / 256 != target / 256 { t.tick() } else { t };
        CpuView { pc: target, ..t }
    }
}

/// The unofficial stores: the value is ANDed with the high byte of the base address plus one,
/// and a page crossing corrupts the high byte of the target with the same value.
pub open spec fn unofficial_store(s: CpuView, base: u16, index: u8, val: u8) -> CpuView {
    let addr = base.wrapping_add(index as u16);
    let crossed = base / 256 != addr / 256;
    let hi = if crossed { ((addr / 256) as u8) & val } else { (addr / 256) as u8 };
    let lo = (addr % 256) as u8;
    let stored = val & (((base / 256 + 1) % 256) as u8);
    s.tick().written(le_word(lo, hi), stored)
}

/// LDA: the accumulator takes the operand value.
pub open spec fn spec_lda(s: CpuView) -> CpuView { s.operand_read().with_acc(s.operand_value()) }
/// LDX: X takes the operand value.
pub open spec fn spec_ldx(s: CpuView) -> CpuView { s.operand_read().with_x(s.operand_value()) }
/// LDY: Y takes the operand value.
pub open spec fn spec_ldy(s: CpuView) -> CpuView { s.operand_read().with_y(s.operand_value()) }
/// STA: the accumulator is stored at the operand address.
pub open spec fn spec_sta(s: CpuView) -> CpuView { s.written(s.operand, s.acc) }
/// STX: X is stored at the operand address.
pub open spec fn spec_stx(s: CpuView) -> CpuView { s.written(s.operand, s.x) }
/// STY: Y is stored at the operand address.
pub open spec fn spec_sty(s: CpuView) -> CpuView { s.written(s.operand, s.y) }
/// ADC: the operand value and the carry are added to the accumulator.
pub open spec fn spec_adc(s: CpuView) -> CpuView { added(s.operand_read(), s.operand_value()) }
/// SBC: the operand value and the borrow are subtracted, as adding its complement.
pub open spec fn spec_sbc(s: CpuView) -> CpuView { added(s.operand_read(), s.operand_value() ^ 0xFF) }
/// INC: the byte at the operand address goes up by one, wrapping.
pub open spec fn spec_inc(s: CpuView) -> CpuView {
    let v = s.at(s.operand);
    let r = v.wrapping_add(1);
    s.tick().written(s.operand, v).written(s.operand, r).with_zn(r)
}
/// DEC: the byte at the operand address goes down by one, wrapping.
pub open spec fn spec_dec(s: CpuView) -> CpuView {
    let v = s.at(s.operand);
    let r = v.wrapping_sub(1);
    s.tick().written(s.operand, v).written(s.operand, r).with_zn(r)
}
/// AND: the accumulator is ANDed with the operand value.
pub open spec fn spec_and(s: CpuView) -> CpuView { s.operand_read().with_acc(s.acc & s.operand_value()) }
/// EOR: the accumulator is XORed with the operand value.
pub open spec fn spec_eor(s: CpuView) -> CpuView { s.operand_read().with_acc(s.acc ^ s.operand_value()) }
/// ORA: the accumulator is ORed with the operand value.
pub open spec fn spec_ora(s: CpuView) -> CpuView { s.operand_read().with_acc(s.acc | s.operand_value()) }
/// The read and dummy write that start a read-modify-write.
pub open spec fn rmw_start(s: CpuView) -> CpuView { s.tick().written(s.operand, s.at(s.operand)) }
/// ASL on the accumulator.
pub open spec fn spec_asla(s: CpuView) -> CpuView { let (t, r) = asl_result(s, s.acc); t.with_acc(r) }
/// ASL on memory.
pub open spec fn spec_aslm(s: CpuView) -> CpuView { rmw(s, asl_result(rmw_start(s), s.at(s.operand))) }
/// LSR on the accumulator.
pub open spec fn spec_lsra(s: CpuView) -> CpuView { let (t, r) = lsr_result(s, s.acc); t.with_acc(r) }
/// LSR on memory.
pub open spec fn spec_lsrm(s: CpuView) -> CpuView { rmw(s, lsr_result(rmw_start(s), s.at(s.operand))) }
/// ROL on the accumulator.
pub open spec fn spec_rola(s: CpuView) -> CpuView { let (t, r) = rol_result(s, s.acc); t.with_acc(r) }
/// ROL on memory.
pub open spec fn spec_rolm(s: CpuView) -> CpuView { rmw(s, rol_result(rmw_start(s), s.at(s.operand))) }
/// ROR on the accumulator.
pub open spec fn spec_rora(s: CpuView) -> CpuView { let (t, r) = ror_result(s, s.acc); t.with_acc(r) }
/// ROR on memory.
pub open spec fn spec_rorm(s: CpuView) -> CpuView { rmw(s, ror_result(rmw_start(s), s.at(s.operand))) }
/// BIT: Z from the accumulator ANDed with the operand value, N and V from its bits 7 and 6.
pub open spec fn spec_bit(s: CpuView) -> CpuView {
    let v = s.operand_value();
    s.operand_read().with_flag(Status::Z, s.acc & v == 0).with_flag(Status::N, v & 0x80 > 0).with_flag(Status::V, v & 0x40 > 0)
}
/// JMP indirect: the target word is read from the operand address, its high byte from the same
/// page when the low byte sits at the end of one.
pub open spec fn spec_jmpi(s: CpuView) -> CpuView {
    let a = s.operand;
    let target = if a % 256 == 255 { le_word(s.at(a), s.at((a - 0xFF) as u16)) } else { s.word_at(a) };
    CpuView { pc: target, ..s.tick().tick() }
}
/// JSR: pushes the address of the operand's last byte, then jumps.
pub open spec fn spec_jsr(s: CpuView) -> CpuView {
    let lo = s.at(s.pc);
    let t = (CpuView { pc: s.pc.wrapping_add(1), ..s.tick() }).tick();
    let t = t.pushed_word(t.pc);
    let hi = t.at(t.pc);
    CpuView { pc: le_word(lo, hi), ..t.tick() }
}
/// RTI: pulls the status, then the return address.
pub open spec fn spec_rti(s: CpuView) -> CpuView {
    let t = s.tick();
    let status = t.top() & !Status::U & !Status::B;
    let t = CpuView { status, ..t.pulled() };
    CpuView { pc: t.top_word(), ..t.pulled().pulled() }
}
/// RTS: pulls the return address and continues after it.
pub open spec fn spec_rts(s: CpuView) -> CpuView {
    let t = s.tick();
    let addr = t.top_word();
    CpuView { pc: addr.wrapping_add(1), ..t.pulled().pulled().tick() }
}
/// PHP: pushes the status with B and U set.
pub open spec fn spec_php(s: CpuView) -> CpuView { s.pushed(s.status | Status::U | Status::B) }
/// PLP: pulls the status, dropping B and U.
pub open spec fn spec_plp(s: CpuView) -> CpuView {
    let t = s.tick();
    CpuView { status: t.top() & !Status::U & !Status::B, ..t.pulled() }
}
/// PHA: pushes the accumulator.
pub open spec fn spec_pha(s: CpuView) -> CpuView { s.pushed(s.acc) }
/// PLA: pulls the accumulator.
pub open spec fn spec_pla(s: CpuView) -> CpuView { let t = s.tick(); t.pulled().with_acc(t.top()) }
/// BRK: pushes the return address and the status with B set, sets I, and jumps through the
/// IRQ vector - or the NMI vector when an NMI hijacks it.
pub open spec fn spec_brk(s: CpuView) -> CpuView {
    let t = s.pushed_word(s.pc);
    let nmi = t.irq_flags & IrqFlags::NMI == IrqFlags::NMI;
    let t = t.pushed(t.status | Status::U | Status::B).with_flag(Status::I, true);
    let t = if nmi { CpuView { irq_flags: t.irq_flags & !IrqFlags::NMI, ..t } } else { t };
    let vector = if nmi { Cpu::NMI_VECTOR } else { Cpu::IRQ_VECTOR };
    CpuView { pc: t.word_at(vector), irq_flags: t.irq_flags & !IrqFlags::PREV_NMI, ..t.tick().tick() }
}
/// HLT: jams the CPU on the opcode, with interrupts held off.
pub open spec fn spec_hlt(s: CpuView) -> CpuView {
    CpuView {
        pc: s.pc.wrapping_sub(1),
        irq_flags: s.irq_flags & !(IrqFlags::PREV_RUN_IRQ | IrqFlags::PREV_NMI),
        corrupted: true,
        ..s
    }
}
/// ISB: INC then SBC.
pub open spec fn spec_isb(s: CpuView) -> CpuView {
    let v = s.operand_value();
    let r = v.wrapping_add(1);
    added(s.operand_read().written(s.operand, v), r ^ 0xFF).written(s.operand, r)
}
/// DCP: DEC then CMP.
pub open spec fn spec_dcp(s: CpuView) -> CpuView {
    let v = s.operand_value();
    let r = v.wrapping_sub(1);
    let t = s.operand_read().written(s.operand, v);
    compared(t, t.acc, r).written(s.operand, r)
}
/// ATX: LDA then TAX.
pub open spec fn spec_atx(s: CpuView) -> CpuView { let v = s.operand_value(); s.operand_read().with_acc(v).with_x(v) }
/// AXS: X takes the accumulator ANDed with X, minus the operand value, with C as in CMP.
pub open spec fn spec_axs(s: CpuView) -> CpuView {
    let v = s.operand_value();
    let ax = s.acc & s.x;
    s.operand_read().with_flag(Status::C, ax >= v).with_x(ax.wrapping_sub(v))
}
/// LAS: the operand value ANDed with the stack pointer goes to A, X and the stack pointer.
pub open spec fn spec_las(s: CpuView) -> CpuView {
    let r = s.operand_value() & s.sp;
    CpuView { sp: r, ..s.operand_read().with_acc(r).with_x(r) }
}
/// LAX: LDA then TAX.
pub open spec fn spec_lax(s: CpuView) -> CpuView { let v = s.operand_value(); s.operand_read().with_x(v).with_acc(v) }
/// SAX: stores the accumulator ANDed with X.
pub open spec fn spec_sax(s: CpuView) -> CpuView { s.written(s.operand, s.acc & s.x) }
/// XAA: the accumulator ORed with the magic constant, ANDed with X and the operand value.
pub open spec fn spec_xaa(s: CpuView) -> CpuView { s.operand_read().with_acc((s.acc | 0xEE) & s.x & s.operand_value()) }
/// RRA: ROR then ADC.
pub open spec fn spec_rra(s: CpuView) -> CpuView {
    let v = s.operand_value();
    let (t, r) = ror_result(s.operand_read().written(s.operand, v), v);
    added(t, r).written(s.operand, r)
}
/// ARR: AND then ROR, with C from bit 6 and V from bit 6 XOR bit 5.
pub open spec fn spec_arr(s: CpuView) -> CpuView {
    let v = s.operand_value();
    let t = s.operand_read();
    let a = ((t.acc & v) / 2 + t.carry() * 128) as u8;
    let t = t.with_acc(a).with_flag(Status::C, a & 0x40 > 0);
    t.with_flag(Status::V, (t.carry() ^ ((a / 32) & 0x01)) > 0)
}
/// SRE: LSR then EOR.
pub open spec fn spec_sre(s: CpuView) -> CpuView {
    let v = s.operand_value();
    let (t, r) = lsr_result(s.operand_read().written(s.operand, v), v);
    t.with_acc(t.acc ^ r).written(s.operand, r)
}
/// ALR: AND then LSR on the accumulator.
pub open spec fn spec_alr(s: CpuView) -> CpuView {
    let t = s.operand_read();
    let a = t.acc & s.operand_value();
    t.with_acc(a).with_flag(Status::C, a & 0x01 > 0).with_acc(a / 2)
}
/// RLA: ROL then AND.
pub open spec fn spec_rla(s: CpuView) -> CpuView {
    let v = s.operand_value();
    let (t, r) = rol_result(s.operand_read().written(s.operand, v), v);
    t.with_acc(t.acc & r).written(s.operand, r)
}
/// ANC: AND, with N copied into C.
pub open spec fn spec_anc(s: CpuView) -> CpuView {
    let t = s.operand_read().with_acc(s.acc & s.operand_value());
    t.with_flag(Status::C, t.flag(Status::N))
}
/// SLO: ASL then ORA.
pub open spec fn spec_slo(s: CpuView) -> CpuView {
    let v = s.operand_value();
    let (t, r) = asl_result(s.operand_read().written(s.operand, v), v);
    t.with_acc(t.acc | r).written(s.operand, r)
}
/// SYA: stores Y ANDed with the high byte of the target plus one, indexed by X.
pub open spec fn spec_sya(s: CpuView) -> CpuView {
    let t = CpuView { pc: s.pc.wrapping_add(2), ..s.tick().tick() };
    unofficial_store(t, s.word_at(s.pc), s.x, s.y)
}
/// SXA: stores X ANDed with the high byte of the target plus one, indexed by Y.
pub open spec fn spec_sxa(s: CpuView) -> CpuView {
    let t = CpuView { pc: s.pc.wrapping_add(2), ..s.tick().tick() };
    unofficial_store(t, s.word_at(s.pc), s.y, s.x)
}
/// SHA absolute: stores A AND X ANDed with the high byte of the target plus one, indexed by Y.
pub open spec fn spec_shaa(s: CpuView) -> CpuView {
    let t = CpuView { pc: s.pc.wrapping_add(2), ..s.tick().tick() };
    unofficial_store(t, s.word_at(s.pc), s.y, s.x & s.acc)
}
/// SHA indirect: as [`spec_shaa`], the base read from a zero-page pointer.
pub open spec fn spec_shaz(s: CpuView) -> CpuView {
    let zero = s.at(s.pc);
    let base = le_word(s.at(zero as u16), s.at(zero.wrapping_add(1) as u16));
    let t = (CpuView { pc: s.pc.wrapping_add(1), ..s.tick() }).tick().tick();
    unofficial_store(t, base, s.y, s.x & s.acc)
}
/// TAS: SHA absolute, then the stack pointer takes A AND X.
pub open spec fn spec_tas(s: CpuView) -> CpuView { let t = spec_shaa(s); CpuView { sp: t.x & t.acc, ..t } }

/// CPU Addressing Modes.
///
/// The 6502 can address 64KB from 0x0000 - 0xFFFF. The high byte is usually the page and the
/// low byte the offset into the page. There are 256 total pages of 256 bytes. Each mode fetches
/// what follows the opcode, spends the cycles the hardware spends, and returns the operand: an
/// address, or for the immediate-like modes the value itself.
impl Cpu {
    /// Accumulator and implied addressing: a dummy read of the byte after the opcode.
    pub fn acc_imp(&mut self) -> (operand: u16)
        requires
            old(self).wf(),
        ensures
            final(self).wf(),
            operand == 0,
            final(self)@ == old(self)@.tick(),
    {
        let pc = self.pc;
        self.read(pc);
        0
    }

    /// Immediate, relative and zero-page addressing: the next byte.
    pub fn imm_rel_zp(&mut self) -> (operand: u16)
        requires
            old(self).wf(),
        ensures
            final(self).wf(),
            operand == old(self)@.at(old(self)@.pc) as u16,
            final(self)@ == (CpuView { pc: old(self)@.pc.wrapping_add(1), ..old(self)@.tick() }),
    {
        self.fetch_byte() as u16
    }

    /// Zero page indexed by X: the next byte plus X, wrapping within page zero, after a dummy
    /// read of the unindexed address.
    pub fn zpx(&mut self) -> (operand: u16)
        requires
            old(self).wf(),
        ensures
            final(self).wf(),
            operand == ((old(self)@.at(old(self)@.pc) + old(self)@.x) % 256) as u16,
            final(self)@ == (CpuView { pc: old(self)@.pc.wrapping_add(1), ..old(self)@.tick() }).tick(),
    {
        let addr = self.fetch_byte() as u16;
        self.read(addr);
        (addr + self.x as u16) % 256
    }

    /// Zero page indexed by Y: the next byte plus Y, wrapping within page zero, after a dummy
    /// read of the unindexed address.
    pub fn zpy(&mut self) -> (operand: u16)
        requires
            old(self).wf(),
        ensures
            final(self).wf(),
            operand == ((old(self)@.at(old(self)@.pc) + old(self)@.y) % 256) as u16,
            final(self)@ == (CpuView { pc: old(self)@.pc.wrapping_add(1), ..old(self)@.tick() }).tick(),
    {
        let addr = self.fetch_byte() as u16;
        self.read(addr);
        (addr + self.y as u16) % 256
    }

    /// Absolute addressing: the next little-endian word.
    pub fn abs(&mut self) -> (operand: u16)
        requires
            old(self).wf(),
        ensures
            final(self).wf(),
            operand == old(self)@.word_at(old(self)@.pc),
            final(self)@ == (CpuView { pc: old(self)@.pc.wrapping_add(2), ..old(self)@.tick().tick() }),
    {
        self.fetch_word()
    }

    /// Absolute indexed by X. A page crossing, or a write (`dummy_read`), costs a dummy read
    /// with the unfixed high byte.
    pub fn abx(&mut self, dummy_read: bool) -> (operand: u16)
        requires
            old(self).wf(),
        ensures
            final(self).wf(),
            ({
                let s = old(self)@;
                let base = s.word_at(s.pc);
                let t = CpuView { pc: s.pc.wrapping_add(2), ..s.tick().tick() };
                &&& operand == base.wrapping_add(s.x as u16)
                &&& final(self)@ == if base / 256 != operand / 256 || dummy_read { t.tick() } else { t }
            }),
    {
        let base_addr = self.fetch_word();
        let addr = base_addr.wrapping_add(self.x as u16);
        if Cpu::pages_differ(base_addr, addr) || dummy_read {
            self.read((base_addr & 0xFF00) | (addr & 0x00FF));
        }
        addr
    }

    /// Absolute indexed by Y. A page crossing, or a write (`dummy_read`), costs a dummy read
    /// with the unfixed high byte.
    pub fn aby(&mut self, dummy_read: bool) -> (operand: u16)
        requires
            old(self).wf(),
        ensures
            final(self).wf(),
            ({
                let s = old(self)@;
                let base = s.word_at(s.pc);
                let t = CpuView { pc: s.pc.wrapping_add(2), ..s.tick().tick() };
                &&& operand == base.wrapping_add(s.y as u16)
                &&& final(self)@ == if base / 256 != operand / 256 || dummy_read { t.tick() } else { t }
            }),
    {
        let base_addr = self.fetch_word();
        let addr = base_addr.wrapping_add(self.y as u16);
        if Cpu::pages_differ(base_addr, addr) || dummy_read {
            self.read((base_addr & 0xFF00) | (addr & 0x00FF));
        }
        addr
    }

    /// Indirect addressing: the next word, which names where `JMP` reads its target.
    pub fn ind(&mut self) -> (operand: u16)
        requires
            old(self).wf(),
        ensures
            final(self).wf(),
            operand == old(self)@.word_at(old(self)@.pc),
            final(self)@ == (CpuView { pc: old(self)@.pc.wrapping_add(2), ..old(self)@.tick().tick() }),
    {
        self.fetch_word()
    }

    /// Indexed indirect by X: the next byte plus X, wrapping in page zero, names a pointer in
    /// page zero whose high byte also wraps in page zero.
    pub fn idx(&mut self) -> (operand: u16)
        requires
            old(self).wf(),
        ensures
            final(self).wf(),
            ({
                let s = old(self)@;
                let zero = s.at(s.pc).wrapping_add(s.x);
                &&& operand == le_word(s.at(zero as u16), s.at(zero.wrapping_add(1) as u16))
                &&& final(self)@ == (CpuView { pc: s.pc.wrapping_add(1), ..s.tick() }).tick().tick().tick()
            }),
    {
        let zero_addr = self.fetch_byte();
        self.read(zero_addr as u16);
        let zero_addr = zero_addr.wrapping_add(self.x);
        let lo = self.read(zero_addr as u16);
        let hi = self.read(zero_addr.wrapping_add(1) as u16);
        (hi as u16) * 256 + (lo as u16)
    }

    /// Indirect indexed by Y: the pointer in page zero that the next byte names, plus Y. A page
    /// crossing, or a write (`dummy_read`), costs a dummy read with the unfixed high byte.
    pub fn idy(&mut self, dummy_read: bool) -> (operand: u16)
        requires
            old(self).wf(),
        ensures
            final(self).wf(),
            ({
                let s = old(self)@;
                let zero = s.at(s.pc);
                let base = le_word(s.at(zero as u16), s.at(zero.wrapping_add(1) as u16));
                let t = (CpuView { pc: s.pc.wrapping_add(1), ..s.tick() }).tick().tick();
                &&& operand == base.wrapping_add(s.y as u16)
                &&& final(self)@ == if base / 256 != operand / 256 || dummy_read { t.tick() } else { t }
            }),
    {
        let zero_addr = self.fetch_byte();
        let lo = self.read(zero_addr as u16);
        let hi = self.read(zero_addr.wrapping_add(1) as u16);
        let base_addr = (hi as u16) * 256 + (lo as u16);
        let addr = base_addr.wrapping_add(self.y as u16);
        if Cpu::pages_differ(base_addr, addr) || dummy_read {
            self.read((base_addr & 0xFF00) | (addr & 0x00FF));
        }
        addr
    }

    /// Fetches the current instruction's operand the way its addressing mode does. `OTH`
    /// leaves the fetch to the operation.
    pub fn fetch_operand(&mut self) -> (operand: u16)
        requires
            old(self).wf(),
        ensures
            final(self).wf(),
            (final(self)@, operand) == fetched(old(self)@),
    {
        match self.addr_mode {
            AddrMode::ACC | AddrMode::IMP => self.acc_imp(),
            AddrMode::IMM | AddrMode::REL | AddrMode::ZP0 => self.imm_rel_zp(),
            AddrMode::ZPX => self.zpx(),
            AddrMode::ZPY => self.zpy(),
            AddrMode::IND => self.ind(),
            AddrMode::IDX => self.idx(),
            AddrMode::IDY => self.idy(false),
            AddrMode::IDYW => self.idy(true),
            AddrMode::ABS => self.abs(),
            AddrMode::ABX => self.abx(false),
            AddrMode::ABXW => self.abx(true),
            AddrMode::ABY => self.aby(false),
            AddrMode::ABYW => self.aby(true),
            AddrMode::OTH => 0,
        }
    }
}

/// The state after an addressing mode fetches its operand, and the operand: an address, or
/// for the immediate-like modes the value itself.
pub open spec fn fetched(s: CpuView) -> (CpuView, u16) {
    let next = CpuView { pc: s.pc.wrapping_add(1), ..s.tick() };
    let next2 = CpuView { pc: s.pc.wrapping_add(2), ..s.tick().tick() };
    let base = s.word_at(s.pc);
    let zp = s.at(s.pc);
    let zp_base = le_word(s.at(zp as u16), s.at(zp.wrapping_add(1) as u16));
    let indexed = |reg: u8, dummy: bool| {
        let operand = base.wrapping_add(reg as u16);
        (if base / 256 != operand / 256 || dummy { next2.tick() } else { next2 }, operand)
    };
    let indirect_y = |dummy: bool| {
        let operand = zp_base.wrapping_add(s.y as u16);
        let t = next.tick().tick();
        (if zp_base / 256 != operand / 256 || dummy { t.tick() } else { t }, operand)
    };
    match s.addr_mode {
        AddrMode::ACC | AddrMode::IMP => (s.tick(), 0),
        AddrMode::IMM | AddrMode::REL | AddrMode::ZP0 => (next, zp as u16),
        AddrMode::ZPX => (next.tick(), ((zp + s.x) % 256) as u16),
        AddrMode::ZPY => (next.tick(), ((zp + s.y) % 256) as u16),
        AddrMode::IND | AddrMode::ABS => (next2, base),
        AddrMode::IDX => {
            let zero = zp.wrapping_add(s.x);
            (next.tick().tick().tick(), le_word(s.at(zero as u16), s.at(zero.wrapping_add(1) as u16)))
        },
        AddrMode::IDY => indirect_y(false),
        AddrMode::IDYW => indirect_y(true),
        AddrMode::ABX => indexed(s.x, false),
        AddrMode::ABXW => indexed(s.x, true),
        AddrMode::ABY => indexed(s.y, false),
        AddrMode::ABYW => indexed(s.y, true),
        AddrMode::OTH => (s, 0),
    }
}

/// CPU instructions.
impl Cpu {
    /// LDA: Load A with M.
    pub fn lda(&mut self)
        requires old(self).wf(),
        ensures final(self).wf(), final(self)@ == spec_lda(old(self)@),
    {
        let val = self.read_operand();
        self.set_acc(val);
    }

    /// LDX: Load X with M.
    pub fn ldx(&mut self)
        requires old(self).wf(),
        ensures final(self).wf(), final(self)@ == spec_ldx(old(self)@),
    {
        let val = self.read_operand();
        self.set_x(val);
    }

    /// LDY: Load Y with M.
    pub fn ldy(&mut self)
        requires old(self).wf(),
        ensures final(self).wf(), final(self)@ == spec_ldy(old(self)@),
    {
        let val = self.read_operand();
        self.set_y(val);
    }

    /// STA: Store A into M.
    pub fn sta(&mut self)
        requires old(self).wf(),
        ensures final(self).wf(), final(self)@ == spec_sta(old(self)@),
    {
        let (addr, val) = (self.operand, self.acc);
        self.write(addr, val);
    }

    /// STX: Store X into M.
    pub fn stx(&mut self)
        requires old(self).wf(),
        ensures final(self).wf(), final(self)@ == spec_stx(old(self)@),
    {
        let (addr, val) = (self.operand, self.x);
        self.write(addr, val);
    }

    /// STY: Store Y into M.
    pub fn sty(&mut self)
        requires old(self).wf(),
        ensures final(self).wf(), final(self)@ == spec_sty(old(self)@),
    {
        let (addr, val) = (self.operand, self.y);
        self.write(addr, val);
    }

    /// TAX: Transfer A to X.
    pub fn tax(&mut self)
        ensures final(self)@ == old(self)@.with_x(old(self)@.acc),
    {
        let val = self.acc;
        self.set_x(val);
    }

    /// TAY: Transfer A to Y.
    pub fn tay(&mut self)
        ensures final(self)@ == old(self)@.with_y(old(self)@.acc),
    {
        let val = self.acc;
        self.set_y(val);
    }

    /// TSX: Transfer Stack Pointer to X.
    pub fn tsx(&mut self)
        ensures final(self)@ == old(self)@.with_x(old(self)@.sp),
    {
        let val = self.sp;
        self.set_x(val);
    }

    /// TXA: Transfer X to A.
    pub fn txa(&mut self)
        ensures final(self)@ == old(self)@.with_acc(old(self)@.x),
    {
        let val = self.x;
        self.set_acc(val);
    }

    /// TXS: Transfer X to Stack Pointer; no flags change.
    pub fn txs(&mut self)
        ensures final(self)@ == (CpuView { sp: old(self)@.x, ..old(self)@ }),
    {
        let val = self.x;
        self.set_sp(val);
    }

    /// TYA: Transfer Y to A.
    pub fn tya(&mut self)
        ensures final(self)@ == old(self)@.with_acc(old(self)@.y),
    {
        let val = self.y;
        self.set_acc(val);
    }

    /// ADC: Add M to A with Carry.
    pub fn adc(&mut self)
        requires old(self).wf(),
        ensures final(self).wf(), final(self)@ == spec_adc(old(self)@),
    {
        let val = self.read_operand();
        self.add_with_carry(val);
    }

    /// SBC: Subtract M from A with Carry.
    pub fn sbc(&mut self)
        requires old(self).wf(),
        ensures final(self).wf(), final(self)@ == spec_sbc(old(self)@),
    {
        let val = self.read_operand();
        self.add_with_carry(val ^ 0xFF);
    }

    /// The addition every add and subtract instruction shares.
    fn add_with_carry(&mut self, val: u8)
        ensures final(self)@ == added(old(self)@, val),
    {
        let a = self.acc as u16;
        let v = val as u16;
        let c = self.status_bit(Status::C);
        proof {
            let bits = self.status.bits;
            assert(bits & 0x01 <= 1) by (bit_vector);
        }
        let res = a + v + c as u16;
        self.status.set(Status::V, (a ^ v) & 0x80 == 0 && (a ^ res) & 0x80 != 0);
        self.status.set(Status::C, res > 0xFF);
        self.set_acc((res % 256) as u8);
    }

    /// INC: Increment M by One.
    pub fn inc(&mut self)
        requires old(self).wf(),
        ensures final(self).wf(), final(self)@ == spec_inc(old(self)@),
    {
        let addr = self.operand;
        let val = self.read(addr);
        self.write(addr, val);
        let res = val.wrapping_add(1);
        self.write(addr, res);
        self.set_zn_status(res);
    }

    /// DEC: Decrement M by One.
    pub fn dec(&mut self)
        requires old(self).wf(),
        ensures final(self).wf(), final(self)@ == spec_dec(old(self)@),
    {
        let addr = self.operand;
        let val = self.read(addr);
        self.write(addr, val);
        let res = val.wrapping_sub(1);
        self.write(addr, res);
        self.set_zn_status(res);
    }

    /// INX: Increment X by One.
    pub fn inx(&mut self)
        ensures final(self)@ == old(self)@.with_x(old(self)@.x.wrapping_add(1)),
    {
        let val = self.x.wrapping_add(1);
        self.set_x(val);
    }

    /// INY: Increment Y by One.
    pub fn iny(&mut self)
        ensures final(self)@ == old(self)@.with_y(old(self)@.y.wrapping_add(1)),
    {
        let val = self.y.wrapping_add(1);
        self.set_y(val);
    }

    /// DEX: Decrement X by One.
    pub fn dex(&mut self)
        ensures final(self)@ == old(self)@.with_x(old(self)@.x.wrapping_sub(1)),
    {
        let val = self.x.wrapping_sub(1);
        self.set_x(val);
    }

    /// DEY: Decrement Y by One.
    pub fn dey(&mut self)
        ensures final(self)@ == old(self)@.with_y(old(self)@.y.wrapping_sub(1)),
    {
        let val = self.y.wrapping_sub(1);
        self.set_y(val);
    }

    /// AND: "And" M with A.
    pub fn and(&mut self)
        requires old(self).wf(),
        ensures final(self).wf(), final(self)@ == spec_and(old(self)@),
    {
        let val = self.read_operand();
        let r = self.acc & val;
        self.set_acc(r);
    }

    /// EOR: "Exclusive-Or" M with A.
    pub fn eor(&mut self)
        requires old(self).wf(),
        ensures final(self).wf(), final(self)@ == spec_eor(old(self)@),
    {
        let val = self.read_operand();
        let r = self.acc ^ val;
        self.set_acc(r);
    }

    /// ORA: "OR" M with A.
    pub fn ora(&mut self)
        requires old(self).wf(),
        ensures final(self).wf(), final(self)@ == spec_ora(old(self)@),
    {
        let val = self.read_operand();
        let r = self.acc | val;
        self.set_acc(r);
    }

    /// The read and the dummy write back of the old value that start a read-modify-write.
    fn rmw_begin(&mut self) -> (val: u8)
        requires old(self).wf(),
        ensures
            final(self).wf(),
            val == old(self)@.at(old(self)@.operand),
            final(self)@ == rmw_start(old(self)@),
    {
        let addr = self.operand;
        let val = self.read(addr);
        self.write(addr, val);
        val
    }

    /// ASL: Shift Left One Bit (A).
    pub fn asla(&mut self)
        ensures final(self)@ == spec_asla(old(self)@),
    {
        let val = self.acc;
        let r = self.asl(val);
        self.set_acc(r);
    }

    /// ASL: Shift Left One Bit (M).
    pub fn aslm(&mut self)
        requires old(self).wf(),
        ensures final(self).wf(), final(self)@ == spec_aslm(old(self)@),
    {
        let addr = self.operand;
        let val = self.rmw_begin();
        let r = self.asl(val);
        self.write(addr, r);
    }

    /// Shifts `val` left, bit 7 into C, setting Z and N from the result.
    pub fn asl(&mut self, val: u8) -> (r: u8)
        ensures (final(self)@, r) == asl_result(old(self)@, val),
    {
        self.status.set(Status::C, (val & 0x80) > 0);
        let r = ((val as u16 * 2) % 256) as u8;
        self.set_zn_status(r);
        r
    }

    /// LSR: Shift Right One Bit (A).
    pub fn lsra(&mut self)
        ensures final(self)@ == spec_lsra(old(self)@),
    {
        let val = self.acc;
        let r = self.lsr(val);
        self.set_acc(r);
    }

    /// LSR: Shift Right One Bit (M).
    pub fn lsrm(&mut self)
        requires old(self).wf(),
        ensures final(self).wf(), final(self)@ == spec_lsrm(old(self)@),
    {
        let addr = self.operand;
        let val = self.rmw_begin();
        let r = self.lsr(val);
        self.write(addr, r);
    }

    /// Shifts `val` right, bit 0 into C, setting Z and N from the result.
    pub fn lsr(&mut self, val: u8) -> (r: u8)
        ensures (final(self)@, r) == lsr_result(old(self)@, val),
    {
        self.status.set(Status::C, (val & 1) > 0);
        let r = val / 2;
        self.set_zn_status(r);
        r
    }

    /// ROL: Rotate One Bit Left (A).
    pub fn rola(&mut self)
        ensures final(self)@ == spec_rola(old(self)@),
    {
        let val = self.acc;
        let r = self.rol(val);
        self.set_acc(r);
    }

    /// ROL: Rotate One Bit Left (M).
    pub fn rolm(&mut self)
        requires old(self).wf(),
        ensures final(self).wf(), final(self)@ == spec_rolm(old(self)@),
    {
        let addr = self.operand;
        let val = self.rmw_begin();
        let r = self.rol(val);
        self.write(addr, r);
    }

    /// Rotates `val` left through C, setting Z and N from the result.
    pub fn rol(&mut self, val: u8) -> (r: u8)
        ensures (final(self)@, r) == rol_result(old(self)@, val),
    {
        let carry = self.status_bit(Status::C);
        proof {
            let bits = self.status.bits;
            assert(bits & 0x01 <= 1) by (bit_vector);
        }
        self.status.set(Status::C, (val & 0x80) > 0);
        let r = ((val as u16 * 2) % 256) as u8 + carry;
        self.set_zn_status(r);
        r
    }

    /// ROR: Rotate One Bit Right (A).
    pub fn rora(&mut self)
        ensures final(self)@ == spec_rora(old(self)@),
    {
        let val = self.acc;
        let r = self.ror(val);
        self.set_acc(r);
    }

    /// ROR: Rotate One Bit Right (M).
    pub fn rorm(&mut self)
        requires old(self).wf(),
        ensures final(self).wf(), final(self)@ == spec_rorm(old(self)@),
    {
        let addr = self.operand;
        let val = self.rmw_begin();
        let r = self.ror(val);
        self.write(addr, r);
    }

    /// Rotates `val` right through C, setting Z and N from the result.
    pub fn ror(&mut self, val: u8) -> (r: u8)
        ensures (final(self)@, r) == ror_result(old(self)@, val),
    {
        let carry = self.status_bit(Status::C);
        proof {
            let bits = self.status.bits;
            assert(bits & 0x01 <= 1) by (bit_vector);
        }
        self.status.set(Status::C, (val & 1) > 0);
        let r = val / 2 + carry * 128;
        self.set_zn_status(r);
        r
    }

    /// BIT: Test Bits in M with A.
    pub fn bit(&mut self)
        requires old(self).wf(),
        ensures final(self).wf(), final(self)@ == spec_bit(old(self)@),
    {
        let val = self.read_operand();
        let z = (self.acc & val) == 0;
        self.status.set(Status::Z, z);
        self.status.set(Status::N, (val & 0x80) > 0);
        self.status.set(Status::V, (val & 0x40) > 0);
    }

    /// BCC: Branch on Carry Clear.
    pub fn bcc(&mut self)
        requires old(self).wf(),
        ensures final(self).wf(), final(self)@ == branched(old(self)@, !old(self)@.flag(Status::C)),
    {
        let taken = !self.status.contains(Status::C);
        self.branch(taken);
    }

    /// BCS: Branch on Carry Set.
    pub fn bcs(&mut self)
        requires old(self).wf(),
        ensures final(self).wf(), final(self)@ == branched(old(self)@, old(self)@.flag(Status::C)),
    {
        let taken = self.status.contains(Status::C);
        self.branch(taken);
    }

    /// BEQ: Branch on Result Zero.
    pub fn beq(&mut self)
        requires old(self).wf(),
        ensures final(self).wf(), final(self)@ == branched(old(self)@, old(self)@.flag(Status::Z)),
    {
        let taken = self.status.contains(Status::Z);
        self.branch(taken);
    }

    /// BMI: Branch on Result Negative.
    pub fn bmi(&mut self)
        requires old(self).wf(),
        ensures final(self).wf(), final(self)@ == branched(old(self)@, old(self)@.flag(Status::N)),
    {
        let taken = self.status.contains(Status::N);
        self.branch(taken);
    }

    /// BNE: Branch on Result Not Zero.
    pub fn bne(&mut self)
        requires old(self).wf(),
        ensures final(self).wf(), final(self)@ == branched(old(self)@, !old(self)@.flag(Status::Z)),
    {
        let taken = !self.status.contains(Status::Z);
        self.branch(taken);
    }

    /// BPL: Branch on Result Positive.
    pub fn bpl(&mut self)
        requires old(self).wf(),
        ensures final(self).wf(), final(self)@ == branched(old(self)@, !old(self)@.flag(Status::N)),
    {
        let taken = !self.status.contains(Status::N);
        self.branch(taken);
    }

    /// BVC: Branch on Overflow Clear.
    pub fn bvc(&mut self)
        requires old(self).wf(),
        ensures final(self).wf(), final(self)@ == branched(old(self)@, !old(self)@.flag(Status::V)),
    {
        let taken = !self.status.contains(Status::V);
        self.branch(taken);
    }

    /// BVS: Branch on Overflow Set.
    pub fn bvs(&mut self)
        requires old(self).wf(),
        ensures final(self).wf(), final(self)@ == branched(old(self)@, old(self)@.flag(Status::V)),
    {
        let taken = self.status.contains(Status::V);
        self.branch(taken);
    }

    /// A taken branch: a dummy read, a second one when the target is on another page, and PC
    /// moved by the signed operand. An interrupt that arrived on the branch's last cycle waits
    /// for the next instruction.
    fn branch(&mut self, taken: bool)
        requires old(self).wf(),
        ensures final(self).wf(), final(self)@ == branched(old(self)@, taken),
    {
        if !taken {
            return;
        }
        let run_irq = self.irq_flags.contains(IrqFlags::RUN_IRQ);
        let prev_run_irq = self.irq_flags.contains(IrqFlags::PREV_RUN_IRQ);
        if run_irq && !prev_run_irq {
            self.irq_flags.remove(IrqFlags::RUN_IRQ);
        }
        let pc = self.pc;
        self.read(pc);
        let offset = self.operand as u8;
        let target = if offset < 128 {
            pc.wrapping_add(offset as u16)
        } else {
            pc.wrapping_sub(256 - offset as u16)
        };
        if Cpu::pages_differ(pc, target) {
            self.read(pc);
        }
        self.pc = target;
    }

    /// JMP: Jump to Location (absolute).
    pub fn jmpa(&mut self)
        ensures final(self)@ == (CpuView { pc: old(self)@.operand, ..old(self)@ }),
    {
        self.pc = self.operand;
    }

    /// JMP: Jump to Location (indirect). The pointer's high byte is read from the same page as
    /// its low byte, as the hardware does.
    pub fn jmpi(&mut self)
        requires old(self).wf(),
        ensures final(self).wf(), final(self)@ == spec_jmpi(old(self)@),
    {
        let addr = self.operand;
        self.pc = if addr % 256 == 0xFF {
            let lo = self.read(addr);
            let hi = self.read(addr - 0xFF);
            (hi as u16) * 256 + (lo as u16)
        } else {
            self.read_word(addr)
        };
    }

    /// JSR: Jump to Location Save Return address.
    pub fn jsr(&mut self)
        requires old(self).wf(),
        ensures final(self).wf(), final(self)@ == spec_jsr(old(self)@),
    {
        let lo = self.fetch_byte();
        let pc = self.pc;
        self.read(pc);
        self.push_word(pc);
        let hi = self.fetch_byte();
        self.pc = (hi as u16) * 256 + (lo as u16);
    }

    /// RTI: Return from Interrupt.
    pub fn rti(&mut self)
        requires old(self).wf(),
        ensures final(self).wf(), final(self)@ == spec_rti(old(self)@),
    {
        let pc = self.pc;
        self.read(pc);
        let status = Status::from_bits_truncate(self.pop_byte());
        self.set_status(status);
        self.pc = self.pop_word();
    }

    /// RTS: Return from Subroutine.
    pub fn rts(&mut self)
        requires old(self).wf(),
        ensures final(self).wf(), final(self)@ == spec_rts(old(self)@),
    {
        let pc = self.pc;
        self.read(pc);
        let addr = self.pop_word();
        self.read(pc);
        self.pc = addr.wrapping_add(1);
    }

    /// CLC: Clear Carry Flag.
    pub fn clc(&mut self)
        ensures final(self)@ == old(self)@.with_flag(Status::C, false),
    {
        self.status.set(Status::C, false);
    }

    /// SEC: Set Carry Flag.
    pub fn sec(&mut self)
        ensures final(self)@ == old(self)@.with_flag(Status::C, true),
    {
        self.status.set(Status::C, true);
    }

    /// CLD: Clear Decimal Mode.
    pub fn cld(&mut self)
        ensures final(self)@ == old(self)@.with_flag(Status::D, false),
    {
        self.status.set(Status::D, false);
    }

    /// SED: Set Decimal Mode.
    pub fn sed(&mut self)
        ensures final(self)@ == old(self)@.with_flag(Status::D, true),
    {
        self.status.set(Status::D, true);
    }

    /// CLI: Clear Interrupt Disable Bit.
    pub fn cli(&mut self)
        ensures final(self)@ == old(self)@.with_flag(Status::I, false),
    {
        self.status.set(Status::I, false);
    }

    /// SEI: Set Interrupt Disable Status.
    pub fn sei(&mut self)
        ensures final(self)@ == old(self)@.with_flag(Status::I, true),
    {
        self.status.set(Status::I, true);
    }

    /// CLV: Clear Overflow Flag.
    pub fn clv(&mut self)
        ensures final(self)@ == old(self)@.with_flag(Status::V, false),
    {
        self.status.set(Status::V, false);
    }

    /// CMP: Compare M and A.
    pub fn cpa(&mut self)
        requires old(self).wf(),
        ensures final(self).wf(), final(self)@ == compared(old(self)@.operand_read(), old(self)@.acc, old(self)@.operand_value()),
    {
        let val = self.read_operand();
        let reg = self.acc;
        self.cmp(reg, val);
    }

    /// CPX: Compare M and X.
    pub fn cpx(&mut self)
        requires old(self).wf(),
        ensures final(self).wf(), final(self)@ == compared(old(self)@.operand_read(), old(self)@.x, old(self)@.operand_value()),
    {
        let val = self.read_operand();
        let reg = self.x;
        self.cmp(reg, val);
    }

    /// CPY: Compare M and Y.
    pub fn cpy(&mut self)
        requires old(self).wf(),
        ensures final(self).wf(), final(self)@ == compared(old(self)@.operand_read(), old(self)@.y, old(self)@.operand_value()),
    {
        let val = self.read_operand();
        let reg = self.y;
        self.cmp(reg, val);
    }

    /// The comparison every compare instruction shares.
    fn cmp(&mut self, reg: u8, val: u8)
        ensures final(self)@ == compared(old(self)@, reg, val),
    {
        let result = reg.wrapping_sub(val);
        self.status.set(Status::C, reg >= val);
        self.set_zn_status(result);
    }

    /// PHP: Push Processor Status on Stack, with B and U set.
    pub fn php(&mut self)
        requires old(self).wf(),
        ensures final(self).wf(), final(self)@ == spec_php(old(self)@),
    {
        let val = self.status.bits | Status::U | Status::B;
        self.push_byte(val);
    }

    /// PLP: Pull Processor Status from Stack.
    pub fn plp(&mut self)
        requires old(self).wf(),
        ensures final(self).wf(), final(self)@ == spec_plp(old(self)@),
    {
        let pc = self.pc;
        self.read(pc);
        let status = Status::from_bits_truncate(self.pop_byte());
        self.set_status(status);
    }

    /// PHA: Push A on Stack.
    pub fn pha(&mut self)
        requires old(self).wf(),
        ensures final(self).wf(), final(self)@ == spec_pha(old(self)@),
    {
        let val = self.acc;
        self.push_byte(val);
    }

    /// PLA: Pull A from Stack.
    pub fn pla(&mut self)
        requires old(self).wf(),
        ensures final(self).wf(), final(self)@ == spec_pla(old(self)@),
    {
        let addr = Self::SP_BASE + self.sp as u16;
        self.read(addr);
        let val = self.pop_byte();
        self.acc = val;
        self.set_zn_status(val);
    }

    /// BRK: Force Break Interrupt.
    pub fn brk(&mut self)
        requires old(self).wf(),
        ensures final(self).wf(), final(self)@ == spec_brk(old(self)@),
    {
        let pc = self.pc;
        self.push_word(pc);
        let status = self.status.bits | Status::U | Status::B;
        let nmi = self.irq_flags.contains(IrqFlags::NMI);
        self.push_byte(status);
        self.status.set(Status::I, true);
        if nmi {
            self.irq_flags.remove(IrqFlags::NMI);
            self.pc = self.read_word(Self::NMI_VECTOR);
        } else {
            self.pc = self.read_word(Self::IRQ_VECTOR);
        }
        self.irq_flags.remove(IrqFlags::PREV_NMI);
    }

    /// NOP: No Operation, reading the operand all the same.
    pub fn nop(&mut self)
        requires old(self).wf(),
        ensures final(self).wf(), final(self)@ == old(self)@.operand_read(),
    {
        let _ = self.read_operand();
    }

    /// HLT: Captures all unimplemented opcodes and halts CPU, by rewinding to re-execute the
    /// bad opcode and holding off interrupts.
    pub fn hlt(&mut self)
        ensures final(self)@ == spec_hlt(old(self)@),
    {
        self.pc = self.pc.wrapping_sub(1);
        self.irq_flags.remove(IrqFlags::PREV_RUN_IRQ | IrqFlags::PREV_NMI);
        self.corrupted = true;
    }

    /// ISC/ISB: Shortcut for INC then SBC.
    pub fn isb(&mut self)
        requires old(self).wf(),
        ensures final(self).wf(), final(self)@ == spec_isb(old(self)@),
    {
        let val = self.read_operand();
        let addr = self.operand;
        self.write(addr, val);
        let val = val.wrapping_add(1);
        self.add_with_carry(val ^ 0xFF);
        self.write(addr, val);
    }

    /// DCP: Shortcut for DEC then CMP.
    pub fn dcp(&mut self)
        requires old(self).wf(),
        ensures final(self).wf(), final(self)@ == spec_dcp(old(self)@),
    {
        let val = self.read_operand();
        let addr = self.operand;
        self.write(addr, val);
        let val = val.wrapping_sub(1);
        let acc = self.acc;
        self.cmp(acc, val);
        self.write(addr, val);
    }

    /// ATX: Shortcut for LDA & TAX.
    pub fn atx(&mut self)
        requires old(self).wf(),
        ensures final(self).wf(), final(self)@ == spec_atx(old(self)@),
    {
        let val = self.read_operand();
        self.set_acc(val);
        let acc = self.acc;
        self.set_x(acc);
    }

    /// AXS: A & X into X, minus M, with C as in a compare.
    pub fn axs(&mut self)
        requires old(self).wf(),
        ensures final(self).wf(), final(self)@ == spec_axs(old(self)@),
    {
        let val = self.read_operand();
        let ax = self.acc & self.x;
        let res = ax.wrapping_sub(val);
        self.status.set(Status::C, ax >= val);
        self.set_x(res);
    }

    /// LAS: Shortcut for LDA then TSX, but ANDs memory with the stack pointer.
    pub fn las(&mut self)
        requires old(self).wf(),
        ensures final(self).wf(), final(self)@ == spec_las(old(self)@),
    {
        let val = self.read_operand();
        let r = val & self.sp;
        self.set_acc(r);
        self.set_x(r);
        self.set_sp(r);
    }

    /// LAX: Shortcut for LDA then TAX.
    pub fn lax(&mut self)
        requires old(self).wf(),
        ensures final(self).wf(), final(self)@ == spec_lax(old(self)@),
    {
        let val = self.read_operand();
        self.set_x(val);
        self.set_acc(val);
    }

    /// SYA/SHY: stores Y ANDed with the high byte of the target address plus one.
    pub fn sya(&mut self)
        requires old(self).wf(),
        ensures final(self).wf(), final(self)@ == spec_sya(old(self)@),
    {
        let base_addr = self.fetch_word();
        let (x, y) = (self.x, self.y);
        self.sya_sxa_axa(base_addr, x, y);
    }

    /// SXA/SHX: stores X ANDed with the high byte of the target address plus one.
    pub fn sxa(&mut self)
        requires old(self).wf(),
        ensures final(self).wf(), final(self)@ == spec_sxa(old(self)@),
    {
        let base_addr = self.fetch_word();
        let (x, y) = (self.x, self.y);
        self.sya_sxa_axa(base_addr, y, x);
    }

    /// SHA/AXA absolute: stores A AND X ANDed with the high byte of the target plus one.
    pub fn shaa(&mut self)
        requires old(self).wf(),
        ensures final(self).wf(), final(self)@ == spec_shaa(old(self)@),
    {
        let base_addr = self.fetch_word();
        let (y, val) = (self.y, self.x & self.acc);
        self.sya_sxa_axa(base_addr, y, val);
    }

    /// AHX/SHA indirect: as `shaa`, the base read from a zero-page pointer.
    pub fn shaz(&mut self)
        requires old(self).wf(),
        ensures final(self).wf(), final(self)@ == spec_shaz(old(self)@),
    {
        let zero_addr = self.fetch_byte();
        let lo = self.read(zero_addr as u16);
        let hi = self.read(zero_addr.wrapping_add(1) as u16);
        let base_addr = (hi as u16) * 256 + (lo as u16);
        let (y, val) = (self.y, self.x & self.acc);
        self.sya_sxa_axa(base_addr, y, val);
    }

    /// The store the unofficial SH* instructions share.
    fn sya_sxa_axa(&mut self, base_addr: u16, index_reg: u8, val_reg: u8)
        requires old(self).wf(),
        ensures final(self).wf(), final(self)@ == unofficial_store(old(self)@, base_addr, index_reg, val_reg),
    {
        let addr = base_addr.wrapping_add(index_reg as u16);
        let page_crossed = Cpu::pages_differ(base_addr, addr);
        let start_cycles = self.cycle;
        self.read((base_addr & 0xFF00) | (addr & 0x00FF));
        let had_dma = self.cycle.wrapping_sub(start_cycles) > 1;
        let mut hi = (addr / 256) as u8;
        let lo = (addr % 256) as u8;
        if page_crossed {
            hi = hi & val_reg;
        }
        let val = if had_dma {
            val_reg
        } else {
            val_reg & ((base_addr / 256 + 1) % 256) as u8
        };
        self.write((hi as u16) * 256 + (lo as u16), val);
    }

    /// SAX: stores A AND X.
    pub fn sax(&mut self)
        requires old(self).wf(),
        ensures final(self).wf(), final(self)@ == spec_sax(old(self)@),
    {
        let (addr, val) = (self.operand, self.acc & self.x);
        self.write(addr, val);
    }

    /// XAA: TXA with AND.
    pub fn xaa(&mut self)
        requires old(self).wf(),
        ensures final(self).wf(), final(self)@ == spec_xaa(old(self)@),
    {
        let val = self.read_operand();
        let r = (self.acc | 0xEE) & self.x & val;
        self.set_acc(r);
    }

    /// RRA: Shortcut for ROR then ADC.
    pub fn rra(&mut self)
        requires old(self).wf(),
        ensures final(self).wf(), final(self)@ == spec_rra(old(self)@),
    {
        let val = self.read_operand();
        let addr = self.operand;
        self.write(addr, val);
        let shifted_val = self.ror(val);
        self.add_with_carry(shifted_val);
        self.write(addr, shifted_val);
    }

    /// TAS: SHA absolute, then the stack pointer takes A AND X.
    pub fn tas(&mut self)
        requires old(self).wf(),
        ensures final(self).wf(), final(self)@ == spec_tas(old(self)@),
    {
        self.shaa();
        let val = self.x & self.acc;
        self.set_sp(val);
    }

    /// ARR: AND then ROR, with C from bit 6 and V from bit 6 XOR bit 5.
    pub fn arr(&mut self)
        requires old(self).wf(),
        ensures final(self).wf(), final(self)@ == spec_arr(old(self)@),
    {
        let val = self.read_operand();
        let carry = self.status_bit(Status::C);
        proof {
            let bits = self.status.bits;
            assert(bits & 0x01 <= 1) by (bit_vector);
        }
        let a = (self.acc & val) / 2 + carry * 128;
        self.set_acc(a);
        self.status.set(Status::C, (self.acc & 0x40) > 0);
        let c = self.status_bit(Status::C);
        self.status.set(Status::V, (c ^ ((self.acc / 32) & 0x01)) > 0);
    }

    /// SRE: Shortcut for LSR then EOR.
    pub fn sre(&mut self)
        requires old(self).wf(),
        ensures final(self).wf(), final(self)@ == spec_sre(old(self)@),
    {
        let val = self.read_operand();
        let addr = self.operand;
        self.write(addr, val);
        let shifted_val = self.lsr(val);
        let r = self.acc ^ shifted_val;
        self.set_acc(r);
        self.write(addr, shifted_val);
    }

    /// ALR/ASR: Shortcut for AND #imm then LSR.
    pub fn alr(&mut self)
        requires old(self).wf(),
        ensures final(self).wf(), final(self)@ == spec_alr(old(self)@),
    {
        let val = self.read_operand();
        let a = self.acc & val;
        self.set_acc(a);
        self.status.set(Status::C, (self.acc & 0x01) > 0);
        let half = self.acc / 2;
        self.set_acc(half);
    }

    /// RLA: Shortcut for ROL then AND.
    pub fn rla(&mut self)
        requires old(self).wf(),
        ensures final(self).wf(), final(self)@ == spec_rla(old(self)@),
    {
        let val = self.read_operand();
        let addr = self.operand;
        self.write(addr, val);
        let shifted_val = self.rol(val);
        let r = self.acc & shifted_val;
        self.set_acc(r);
        self.write(addr, shifted_val);
    }

    /// ANC/AAC: AND #imm, putting bit 7 into carry as if ASL was executed.
    pub fn anc(&mut self)
        requires old(self).wf(),
        ensures final(self).wf(), final(self)@ == spec_anc(old(self)@),
    {
        let val = self.read_operand();
        let r = self.acc & val;
        self.set_acc(r);
        let n = self.status.contains(Status::N);
        self.status.set(Status::C, n);
    }

    /// SLO: Shortcut for ASL then ORA.
    pub fn slo(&mut self)
        requires old(self).wf(),
        ensures final(self).wf(), final(self)@ == spec_slo(old(self)@),
    {
        let val = self.read_operand();
        let addr = self.operand;
        self.write(addr, val);
        let shifted_val = self.asl(val);
        let r = self.acc | shifted_val;
        self.set_acc(r);
        self.write(addr, shifted_val);
    }
}

/// The method an opcode runs.
#[derive(Debug, Copy, Clone, PartialEq, Eq, Structural)]
pub enum Operation {
    Adc,
    Alr,
    Anc,
    And,
    Arr,
    Asla,
    Aslm,
    Atx,
    Axs,
    Bcc,
    Bcs,
    Beq,
    Bit,
    Bmi,
    Bne,
    Bpl,
    Brk,
    Bvc,
    Bvs,
    Clc,
    Cld,
    Cli,
    Clv,
    Cpa,
    Cpx,
    Cpy,
    Dcp,
    Dec,
    Dex,
    Dey,
    Eor,
    Hlt,
    Inc,
    Inx,
    Iny,
    Isb,
    Jmpa,
    Jmpi,
    Jsr,
    Las,
    Lax,
    Lda,
    Ldx,
    Ldy,
    Lsra,
    Lsrm,
    Nop,
    Ora,
    Pha,
    Php,
    Pla,
    Plp,
    Rla,
    Rola,
    Rolm,
    Rora,
    Rorm,
    Rra,
    Rti,
    Rts,
    Sax,
    Sbc,
    Sec,
    Sed,
    Sei,
    Shaa,
    Shaz,
    Slo,
    Sre,
    Sta,
    Stx,
    Sty,
    Sxa,
    Sya,
    Tas,
    Tax,
    Tay,
    Tsx,
    Txa,
    Txs,
    Tya,
    Xaa,
}

/// What running an operation does to the CPU.
pub open spec fn operation_effect(f: Operation, s: CpuView) -> CpuView {
    match f {
        Operation::Adc => spec_adc(s),
        Operation::Alr => spec_alr(s),
        Operation::Anc => spec_anc(s),
        Operation::And => spec_and(s),
        Operation::Arr => spec_arr(s),
        Operation::Asla => spec_asla(s),
        Operation::Aslm => spec_aslm(s),
        Operation::Atx => spec_atx(s),
        Operation::Axs => spec_axs(s),
        Operation::Bcc => branched(s, !s.flag(Status::C)),
        Operation::Bcs => branched(s, s.flag(Status::C)),
        Operation::Beq => branched(s, s.flag(Status::Z)),
        Operation::Bit => spec_bit(s),
        Operation::Bmi => branched(s, s.flag(Status::N)),
        Operation::Bne => branched(s, !s.flag(Status::Z)),
        Operation::Bpl => branched(s, !s.flag(Status::N)),
        Operation::Brk => spec_brk(s),
        Operation::Bvc => branched(s, !s.flag(Status::V)),
        Operation::Bvs => branched(s, s.flag(Status::V)),
        Operation::Clc => s.with_flag(Status::C, false),
        Operation::Cld => s.with_flag(Status::D, false),
        Operation::Cli => s.with_flag(Status::I, false),
        Operation::Clv => s.with_flag(Status::V, false),
        Operation::Cpa => compared(s.operand_read(), s.acc, s.operand_value()),
        Operation::Cpx => compared(s.operand_read(), s.x, s.operand_value()),
        Operation::Cpy => compared(s.operand_read(), s.y, s.operand_value()),
        Operation::Dcp => spec_dcp(s),
        Operation::Dec => spec_dec(s),
        Operation::Dex => s.with_x(s.x.wrapping_sub(1)),
        Operation::Dey => s.with_y(s.y.wrapping_sub(1)),
        Operation::Eor => spec_eor(s),
        Operation::Hlt => spec_hlt(s),
        Operation::Inc => spec_inc(s),
        Operation::Inx => s.with_x(s.x.wrapping_add(1)),
        Operation::Iny => s.with_y(s.y.wrapping_add(1)),
        Operation::Isb => spec_isb(s),
        Operation::Jmpa => CpuView { pc: s.operand, ..s },
        Operation::Jmpi => spec_jmpi(s),
        Operation::Jsr => spec_jsr(s),
        Operation::Las => spec_las(s),
        Operation::Lax => spec_lax(s),
        Operation::Lda => spec_lda(s),
        Operation::Ldx => spec_ldx(s),
        Operation::Ldy => spec_ldy(s),
        Operation::Lsra => spec_lsra(s),
        Operation::Lsrm => spec_lsrm(s),
        Operation::Nop => s.operand_read(),
        Operation::Ora => spec_ora(s),
        Operation::Pha => spec_pha(s),
        Operation::Php => spec_php(s),
        Operation::Pla => spec_pla(s),
        Operation::Plp => spec_plp(s),
        Operation::Rla => spec_rla(s),
        Operation::Rola => spec_rola(s),
        Operation::Rolm => spec_rolm(s),
        Operation::Rora => spec_rora(s),
        Operation::Rorm => spec_rorm(s),
        Operation::Rra => spec_rra(s),
        Operation::Rti => spec_rti(s),
        Operation::Rts => spec_rts(s),
        Operation::Sax => spec_sax(s),
        Operation::Sbc => spec_sbc(s),
        Operation::Sec => s.with_flag(Status::C, true),
        Operation::Sed => s.with_flag(Status::D, true),
        Operation::Sei => s.with_flag(Status::I, true),
        Operation::Shaa => spec_shaa(s),
        Operation::Shaz => spec_shaz(s),
        Operation::Slo => spec_slo(s),
        Operation::Sre => spec_sre(s),
        Operation::Sta => spec_sta(s),
        Operation::Stx => spec_stx(s),
        Operation::Sty => spec_sty(s),
        Operation::Sxa => spec_sxa(s),
        Operation::Sya => spec_sya(s),
        Operation::Tas => spec_tas(s),
        Operation::Tax => s.with_x(s.acc),
        Operation::Tay => s.with_y(s.acc),
        Operation::Tsx => s.with_x(s.sp),
        Operation::Txa => s.with_acc(s.x),
        Operation::Txs => CpuView { sp: s.x, ..s },
        Operation::Tya => s.with_acc(s.y),
        Operation::Xaa => spec_xaa(s),
    }
}

/// The operation and addressing mode of each opcode.
pub open spec fn op_table(opcode: u8) -> Op {
    match opcode {
        0 => Op { f: Operation::Brk, addr_mode: AddrMode::IMM },
        1 => Op { f: Operation::Ora, addr_mode: AddrMode::IDX },
        2 => Op { f: Operation::Hlt, addr_mode: AddrMode::IMP },
        3 => Op { f: Operation::Slo, addr_mode: AddrMode::IDX },
        4 => Op { f: Operation::Nop, addr_mode: AddrMode::ZP0 },
        5 => Op { f: Operation::Ora, addr_mode: AddrMode::ZP0 },
        6 => Op { f: Operation::Aslm, addr_mode: AddrMode::ZP0 },
        7 => Op { f: Operation::Slo, addr_mode: AddrMode::ZP0 },
        8 => Op { f: Operation::Php, addr_mode: AddrMode::IMP },
        9 => Op { f: Operation::Ora, addr_mode: AddrMode::IMM },
        10 => Op { f: Operation::Asla, addr_mode: AddrMode::ACC },
        11 => Op { f: Operation::Anc, addr_mode: AddrMode::IMM },
        12 => Op { f: Operation::Nop, addr_mode: AddrMode::ABS },
        13 => Op { f: Operation::Ora, addr_mode: AddrMode::ABS },
        14 => Op { f: Operation::Aslm, addr_mode: AddrMode::ABS },
        15 => Op { f: Operation::Slo, addr_mode: AddrMode::ABS },
        16 => Op { f: Operation::Bpl, addr_mode: AddrMode::REL },
        17 => Op { f: Operation::Ora, addr_mode: AddrMode::IDY },
        18 => Op { f: Operation::Hlt, addr_mode: AddrMode::IMP },
        19 => Op { f: Operation::Slo, addr_mode: AddrMode::IDYW },
        20 => Op { f: Operation::Nop, addr_mode: AddrMode::ZPX },
        21 => Op { f: Operation::Ora, addr_mode: AddrMode::ZPX },
        22 => Op { f: Operation::Aslm, addr_mode: AddrMode::ZPX },
        23 => Op { f: Operation::Slo, addr_mode: AddrMode::ZPX },
        24 => Op { f: Operation::Clc, addr_mode: AddrMode::IMP },
        25 => Op { f: Operation::Ora, addr_mode: AddrMode::ABY },
        26 => Op { f: Operation::Nop, addr_mode: AddrMode::IMP },
        27 => Op { f: Operation::Slo, addr_mode: AddrMode::ABYW },
        28 => Op { f: Operation::Nop, addr_mode: AddrMode::ABX },
        29 => Op { f: Operation::Ora, addr_mode: AddrMode::ABX },
        30 => Op { f: Operation::Aslm, addr_mode: AddrMode::ABXW },
        31 => Op { f: Operation::Slo, addr_mode: AddrMode::ABXW },
        32 => Op { f: Operation::Jsr, addr_mode: AddrMode::OTH },
        33 => Op { f: Operation::And, addr_mode: AddrMode::IDX },
        34 => Op { f: Operation::Hlt, addr_mode: AddrMode::IMP },
        35 => Op { f: Operation::Rla, addr_mode: AddrMode::IDX },
        36 => Op { f: Operation::Bit, addr_mode: AddrMode::ZP0 },
        37 => Op { f: Operation::And, addr_mode: AddrMode::ZP0 },
        38 => Op { f: Operation::Rolm, addr_mode: AddrMode::ZP0 },
        39 => Op { f: Operation::Rla, addr_mode: AddrMode::ZP0 },
        40 => Op { f: Operation::Plp, addr_mode: AddrMode::IMP },
        41 => Op { f: Operation::And, addr_mode: AddrMode::IMM },
        42 => Op { f: Operation::Rola, addr_mode: AddrMode::ACC },
        43 => Op { f: Operation::Anc, addr_mode: AddrMode::IMM },
        44 => Op { f: Operation::Bit, addr_mode: AddrMode::ABS },
        45 => Op { f: Operation::And, addr_mode: AddrMode::ABS },
        46 => Op { f: Operation::Rolm, addr_mode: AddrMode::ABS },
        47 => Op { f: Operation::Rla, addr_mode: AddrMode::ABS },
        48 => Op { f: Operation::Bmi, addr_mode: AddrMode::REL },
        49 => Op { f: Operation::And, addr_mode: AddrMode::IDY },
        50 => Op { f: Operation::Hlt, addr_mode: AddrMode::IMP },
        51 => Op { f: Operation::Rla, addr_mode: AddrMode::IDYW },
        52 => Op { f: Operation::Nop, addr_mode: AddrMode::ZPX },
        53 => Op { f: Operation::And, addr_mode: AddrMode::ZPX },
        54 => Op { f: Operation::Rolm, addr_mode: AddrMode::ZPX },
        55 => Op { f: Operation::Rla, addr_mode: AddrMode::ZPX },
        56 => Op { f: Operation::Sec, addr_mode: AddrMode::IMP },
        57 => Op { f: Operation::And, addr_mode: AddrMode::ABY },
        58 => Op { f: Operation::Nop, addr_mode: AddrMode::IMP },
        59 => Op { f: Operation::Rla, addr_mode: AddrMode::ABYW },
        60 => Op { f: Operation::Nop, addr_mode: AddrMode::ABX },
        61 => Op { f: Operation::And, addr_mode: AddrMode::ABX },
        62 => Op { f: Operation::Rolm, addr_mode: AddrMode::ABXW },
        63 => Op { f: Operation::Rla, addr_mode: AddrMode::ABXW },
        64 => Op { f: Operation::Rti, addr_mode: AddrMode::IMP },
        65 => Op { f: Operation::Eor, addr_mode: AddrMode::IDX },
        66 => Op { f: Operation::Hlt, addr_mode: AddrMode::IMP },
        67 => Op { f: Operation::Sre, addr_mode: AddrMode::IDX },
        68 => Op { f: Operation::Nop, addr_mode: AddrMode::ZP0 },
        69 => Op { f: Operation::Eor, addr_mode: AddrMode::ZP0 },
        70 => Op { f: Operation::Lsrm, addr_mode: AddrMode::ZP0 },
        71 => Op { f: Operation::Sre, addr_mode: AddrMode::ZP0 },
        72 => Op { f: Operation::Pha, addr_mode: AddrMode::IMP },
        73 => Op { f: Operation::Eor, addr_mode: AddrMode::IMM },
        74 => Op { f: Operation::Lsra, addr_mode: AddrMode::ACC },
        75 => Op { f: Operation::Alr, addr_mode: AddrMode::IMM },
        76 => Op { f: Operation::Jmpa, addr_mode: AddrMode::ABS },
        77 => Op { f: Operation::Eor, addr_mode: AddrMode::ABS },
        78 => Op { f: Operation::Lsrm, addr_mode: AddrMode::ABS },
        79 => Op { f: Operation::Sre, addr_mode: AddrMode::ABS },
        80 => Op { f: Operation::Bvc, addr_mode: AddrMode::REL },
        81 => Op { f: Operation::Eor, addr_mode: AddrMode::IDY },
        82 => Op { f: Operation::Hlt, addr_mode: AddrMode::IMP },
        83 => Op { f: Operation::Sre, addr_mode: AddrMode::IDYW },
        84 => Op { f: Operation::Nop, addr_mode: AddrMode::ZPX },
        85 => Op { f: Operation::Eor, addr_mode: AddrMode::ZPX },
        86 => Op { f: Operation::Lsrm, addr_mode: AddrMode::ZPX },
        87 => Op { f: Operation::Sre, addr_mode: AddrMode::ZPX },
        88 => Op { f: Operation::Cli, addr_mode: AddrMode::IMP },
        89 => Op { f: Operation::Eor, addr_mode: AddrMode::ABY },
        90 => Op { f: Operation::Nop, addr_mode: AddrMode::IMP },
        91 => Op { f: Operation::Sre, addr_mode: AddrMode::ABYW },
        92 => Op { f: Operation::Nop, addr_mode: AddrMode::ABX },
        93 => Op { f: Operation::Eor, addr_mode: AddrMode::ABX },
        94 => Op { f: Operation::Lsrm, addr_mode: AddrMode::ABXW },
        95 => Op { f: Operation::Sre, addr_mode: AddrMode::ABXW },
        96 => Op { f: Operation::Rts, addr_mode: AddrMode::IMP },
        97 => Op { f: Operation::Adc, addr_mode: AddrMode::IDX },
        98 => Op { f: Operation::Hlt, addr_mode: AddrMode::IMP },
        99 => Op { f: Operation::Rra, addr_mode: AddrMode::IDX },
        100 => Op { f: Operation::Nop, addr_mode: AddrMode::ZP0 },
        101 => Op { f: Operation::Adc, addr_mode: AddrMode::ZP0 },
        102 => Op { f: Operation::Rorm, addr_mode: AddrMode::ZP0 },
        103 => Op { f: Operation::Rra, addr_mode: AddrMode::ZP0 },
        104 => Op { f: Operation::Pla, addr_mode: AddrMode::IMP },
        105 => Op { f: Operation::Adc, addr_mode: AddrMode::IMM },
        106 => Op { f: Operation::Rora, addr_mode: AddrMode::ACC },
        107 => Op { f: Operation::Arr, addr_mode: AddrMode::IMM },
        108 => Op { f: Operation::Jmpi, addr_mode: AddrMode::IND },
        109 => Op { f: Operation::Adc, addr_mode: AddrMode::ABS },
        110 => Op { f: Operation::Rorm, addr_mode: AddrMode::ABS },
        111 => Op { f: Operation::Rra, addr_mode: AddrMode::ABS },
        112 => Op { f: Operation::Bvs, addr_mode: AddrMode::REL },
        113 => Op { f: Operation::Adc, addr_mode: AddrMode::IDY },
        114 => Op { f: Operation::Hlt, addr_mode: AddrMode::IMP },
        115 => Op { f: Operation::Rra, addr_mode: AddrMode::IDYW },
        116 => Op { f: Operation::Nop, addr_mode: AddrMode::ZPX },
        117 => Op { f: Operation::Adc, addr_mode: AddrMode::ZPX },
        118 => Op { f: Operation::Rorm, addr_mode: AddrMode::ZPX },
        119 => Op { f: Operation::Rra, addr_mode: AddrMode::ZPX },
        120 => Op { f: Operation::Sei, addr_mode: AddrMode::IMP },
        121 => Op { f: Operation::Adc, addr_mode: AddrMode::ABY },
        122 => Op { f: Operation::Nop, addr_mode: AddrMode::IMP },
        123 => Op { f: Operation::Rra, addr_mode: AddrMode::ABYW },
        124 => Op { f: Operation::Nop, addr_mode: AddrMode::ABX },
        125 => Op { f: Operation::Adc, addr_mode: AddrMode::ABX },
        126 => Op { f: Operation::Rorm, addr_mode: AddrMode::ABXW },
        127 => Op { f: Operation::Rra, addr_mode: AddrMode::ABXW },
        128 => Op { f: Operation::Nop, addr_mode: AddrMode::IMM },
        129 => Op { f: Operation::Sta, addr_mode: AddrMode::IDX },
        130 => Op { f: Operation::Nop, addr_mode: AddrMode::IMM },
        131 => Op { f: Operation::Sax, addr_mode: AddrMode::IDX },
        132 => Op { f: Operation::Sty, addr_mode: AddrMode::ZP0 },
        133 => Op { f: Operation::Sta, addr_mode: AddrMode::ZP0 },
        134 => Op { f: Operation::Stx, addr_mode: AddrMode::ZP0 },
        135 => Op { f: Operation::Sax, addr_mode: AddrMode::ZP0 },
        136 => Op { f: Operation::Dey, addr_mode: AddrMode::IMP },
        137 => Op { f: Operation::Nop, addr_mode: AddrMode::IMM },
        138 => Op { f: Operation::Txa, addr_mode: AddrMode::IMP },
        139 => Op { f: Operation::Xaa, addr_mode: AddrMode::IMM },
        140 => Op { f: Operation::Sty, addr_mode: AddrMode::ABS },
        141 => Op { f: Operation::Sta, addr_mode: AddrMode::ABS },
        142 => Op { f: Operation::Stx, addr_mode: AddrMode::ABS },
        143 => Op { f: Operation::Sax, addr_mode: AddrMode::ABS },
        144 => Op { f: Operation::Bcc, addr_mode: AddrMode::REL },
        145 => Op { f: Operation::Sta, addr_mode: AddrMode::IDYW },
        146 => Op { f: Operation::Hlt, addr_mode: AddrMode::IMP },
        147 => Op { f: Operation::Shaz, addr_mode: AddrMode::OTH },
        148 => Op { f: Operation::Sty, addr_mode: AddrMode::ZPX },
        149 => Op { f: Operation::Sta, addr_mode: AddrMode::ZPX },
        150 => Op { f: Operation::Stx, addr_mode: AddrMode::ZPY },
        151 => Op { f: Operation::Sax, addr_mode: AddrMode::ZPY },
        152 => Op { f: Operation::Tya, addr_mode: AddrMode::IMP },
        153 => Op { f: Operation::Sta, addr_mode: AddrMode::ABYW },
        154 => Op { f: Operation::Txs, addr_mode: AddrMode::IMP },
        155 => Op { f: Operation::Tas, addr_mode: AddrMode::OTH },
        156 => Op { f: Operation::Sya, addr_mode: AddrMode::OTH },
        157 => Op { f: Operation::Sta, addr_mode: AddrMode::ABXW },
        158 => Op { f: Operation::Sxa, addr_mode: AddrMode::OTH },
        159 => Op { f: Operation::Shaa, addr_mode: AddrMode::OTH },
        160 => Op { f: Operation::Ldy, addr_mode: AddrMode::IMM },
        161 => Op { f: Operation::Lda, addr_mode: AddrMode::IDX },
        162 => Op { f: Operation::Ldx, addr_mode: AddrMode::IMM },
        163 => Op { f: Operation::Lax, addr_mode: AddrMode::IDX },
        164 => Op { f: Operation::Ldy, addr_mode: AddrMode::ZP0 },
        165 => Op { f: Operation::Lda, addr_mode: AddrMode::ZP0 },
        166 => Op { f: Operation::Ldx, addr_mode: AddrMode::ZP0 },
        167 => Op { f: Operation::Lax, addr_mode: AddrMode::ZP0 },
        168 => Op { f: Operation::Tay, addr_mode: AddrMode::IMP },
        169 => Op { f: Operation::Lda, addr_mode: AddrMode::IMM },
        170 => Op { f: Operation::Tax, addr_mode: AddrMode::IMP },
        171 => Op { f: Operation::Atx, addr_mode: AddrMode::IMM },
        172 => Op { f: Operation::Ldy, addr_mode: AddrMode::ABS },
        173 => Op { f: Operation::Lda, addr_mode: AddrMode::ABS },
        174 => Op { f: Operation::Ldx, addr_mode: AddrMode::ABS },
        175 => Op { f: Operation::Lax, addr_mode: AddrMode::ABS },
        176 => Op { f: Operation::Bcs, addr_mode: AddrMode::REL },
        177 => Op { f: Operation::Lda, addr_mode: AddrMode::IDY },
        178 => Op { f: Operation::Hlt, addr_mode: AddrMode::IMP },
        179 => Op { f: Operation::Lax, addr_mode: AddrMode::IDY },
        180 => Op { f: Operation::Ldy, addr_mode: AddrMode::ZPX },
        181 => Op { f: Operation::Lda, addr_mode: AddrMode::ZPX },
        182 => Op { f: Operation::Ldx, addr_mode: AddrMode::ZPY },
        183 => Op { f: Operation::Lax, addr_mode: AddrMode::ZPY },
        184 => Op { f: Operation::Clv, addr_mode: AddrMode::IMP },
        185 => Op { f: Operation::Lda, addr_mode: AddrMode::ABY },
        186 => Op { f: Operation::Tsx, addr_mode: AddrMode::IMP },
        187 => Op { f: Operation::Las, addr_mode: AddrMode::ABY },
        188 => Op { f: Operation::Ldy, addr_mode: AddrMode::ABX },
        189 => Op { f: Operation::Lda, addr_mode: AddrMode::ABX },
        190 => Op { f: Operation::Ldx, addr_mode: AddrMode::ABY },
        191 => Op { f: Operation::Lax, addr_mode: AddrMode::ABY },
        192 => Op { f: Operation::Cpy, addr_mode: AddrMode::IMM },
        193 => Op { f: Operation::Cpa, addr_mode: AddrMode::IDX },
        194 => Op { f: Operation::Nop, addr_mode: AddrMode::IMM },
        195 => Op { f: Operation::Dcp, addr_mode: AddrMode::IDX },
        196 => Op { f: Operation::Cpy, addr_mode: AddrMode::ZP0 },
        197 => Op { f: Operation::Cpa, addr_mode: AddrMode::ZP0 },
        198 => Op { f: Operation::Dec, addr_mode: AddrMode::ZP0 },
        199 => Op { f: Operation::Dcp, addr_mode: AddrMode::ZP0 },
        200 => Op { f: Operation::Iny, addr_mode: AddrMode::IMP },
        201 => Op { f: Operation::Cpa, addr_mode: AddrMode::IMM },
        202 => Op { f: Operation::Dex, addr_mode: AddrMode::IMP },
        203 => Op { f: Operation::Axs, addr_mode: AddrMode::IMM },
        204 => Op { f: Operation::Cpy, addr_mode: AddrMode::ABS },
        205 => Op { f: Operation::Cpa, addr_mode: AddrMode::ABS },
        206 => Op { f: Operation::Dec, addr_mode: AddrMode::ABS },
        207 => Op { f: Operation::Dcp, addr_mode: AddrMode::ABS },
        208 => Op { f: Operation::Bne, addr_mode: AddrMode::REL },
        209 => Op { f: Operation::Cpa, addr_mode: AddrMode::IDY },
        210 => Op { f: Operation::Hlt, addr_mode: AddrMode::IMP },
        211 => Op { f: Operation::Dcp, addr_mode: AddrMode::IDYW },
        212 => Op { f: Operation::Nop, addr_mode: AddrMode::ZPX },
        213 => Op { f: Operation::Cpa, addr_mode: AddrMode::ZPX },
        214 => Op { f: Operation::Dec, addr_mode: AddrMode::ZPX },
        215 => Op { f: Operation::Dcp, addr_mode: AddrMode::ZPX },
        216 => Op { f: Operation::Cld, addr_mode: AddrMode::IMP },
        217 => Op { f: Operation::Cpa, addr_mode: AddrMode::ABY },
        218 => Op { f: Operation::Nop, addr_mode: AddrMode::IMP },
        219 => Op { f: Operation::Dcp, addr_mode: AddrMode::ABYW },
        220 => Op { f: Operation::Nop, addr_mode: AddrMode::ABX },
        221 => Op { f: Operation::Cpa, addr_mode: AddrMode::ABX },
        222 => Op { f: Operation::Dec, addr_mode: AddrMode::ABXW },
        223 => Op { f: Operation::Dcp, addr_mode: AddrMode::ABXW },
        224 => Op { f: Operation::Cpx, addr_mode: AddrMode::IMM },
        225 => Op { f: Operation::Sbc, addr_mode: AddrMode::IDX },
        226 => Op { f: Operation::Nop, addr_mode: AddrMode::IMM },
        227 => Op { f: Operation::Isb, addr_mode: AddrMode::IDX },
        228 => Op { f: Operation::Cpx, addr_mode: AddrMode::ZP0 },
        229 => Op { f: Operation::Sbc, addr_mode: AddrMode::ZP0 },
        230 => Op { f: Operation::Inc, addr_mode: AddrMode::ZP0 },
        231 => Op { f: Operation::Isb, addr_mode: AddrMode::ZP0 },
        232 => Op { f: Operation::Inx, addr_mode: AddrMode::IMP },
        233 => Op { f: Operation::Sbc, addr_mode: AddrMode::IMM },
        234 => Op { f: Operation::Nop, addr_mode: AddrMode::IMP },
        235 => Op { f: Operation::Sbc, addr_mode: AddrMode::IMM },
        236 => Op { f: Operation::Cpx, addr_mode: AddrMode::ABS },
        237 => Op { f: Operation::Sbc, addr_mode: AddrMode::ABS },
        238 => Op { f: Operation::Inc, addr_mode: AddrMode::ABS },
        239 => Op { f: Operation::Isb, addr_mode: AddrMode::ABS },
        240 => Op { f: Operation::Beq, addr_mode: AddrMode::REL },
        241 => Op { f: Operation::Sbc, addr_mode: AddrMode::IDY },
        242 => Op { f: Operation::Hlt, addr_mode: AddrMode::IMP },
        243 => Op { f: Operation::Isb, addr_mode: AddrMode::IDYW },
        244 => Op { f: Operation::Nop, addr_mode: AddrMode::ZPX },
        245 => Op { f: Operation::Sbc, addr_mode: AddrMode::ZPX },
        246 => Op { f: Operation::Inc, addr_mode: AddrMode::ZPX },
        247 => Op { f: Operation::Isb, addr_mode: AddrMode::ZPX },
        248 => Op { f: Operation::Sed, addr_mode: AddrMode::IMP },
        249 => Op { f: Operation::Sbc, addr_mode: AddrMode::ABY },
        250 => Op { f: Operation::Nop, addr_mode: AddrMode::IMP },
        251 => Op { f: Operation::Isb, addr_mode: AddrMode::ABYW },
        252 => Op { f: Operation::Nop, addr_mode: AddrMode::ABX },
        253 => Op { f: Operation::Sbc, addr_mode: AddrMode::ABX },
        254 => Op { f: Operation::Inc, addr_mode: AddrMode::ABXW },
        _ => Op { f: Operation::Isb, addr_mode: AddrMode::ABXW },
    }
}

/// The reference entry of each opcode.
pub open spec fn instr_ref_table(opcode: u8) -> InstrRef {
    match opcode {
        0 => InstrRef { opcode: 0x00, instr: Instr::BRK, addr_mode: AddrMode::IMM, cycles: 7 },
        1 => InstrRef { opcode: 0x01, instr: Instr::ORA, addr_mode: AddrMode::IDX, cycles: 6 },
        2 => InstrRef { opcode: 0x02, instr: Instr::HLT, addr_mode: AddrMode::IMP, cycles: 2 },
        3 => InstrRef { opcode: 0x03, instr: Instr::SLO, addr_mode: AddrMode::IDX, cycles: 8 },
        4 => InstrRef { opcode: 0x04, instr: Instr::NOP, addr_mode: AddrMode::ZP0, cycles: 3 },
        5 => InstrRef { opcode: 0x05, instr: Instr::ORA, addr_mode: AddrMode::ZP0, cycles: 3 },
        6 => InstrRef { opcode: 0x06, instr: Instr::ASL, addr_mode: AddrMode::ZP0, cycles: 5 },
        7 => InstrRef { opcode: 0x07, instr: Instr::SLO, addr_mode: AddrMode::ZP0, cycles: 5 },
        8 => InstrRef { opcode: 0x08, instr: Instr::PHP, addr_mode: AddrMode::IMP, cycles: 3 },
        9 => InstrRef { opcode: 0x09, instr: Instr::ORA, addr_mode: AddrMode::IMM, cycles: 2 },
        10 => InstrRef { opcode: 0x0A, instr: Instr::ASL, addr_mode: AddrMode::ACC, cycles: 2 },
        11 => InstrRef { opcode: 0x0B, instr: Instr::ANC, addr_mode: AddrMode::IMM, cycles: 2 },
        12 => InstrRef { opcode: 0x0C, instr: Instr::NOP, addr_mode: AddrMode::ABS, cycles: 4 },
        13 => InstrRef { opcode: 0x0D, instr: Instr::ORA, addr_mode: AddrMode::ABS, cycles: 4 },
        14 => InstrRef { opcode: 0x0E, instr: Instr::ASL, addr_mode: AddrMode::ABS, cycles: 6 },
        15 => InstrRef { opcode: 0x0F, instr: Instr::SLO, addr_mode: AddrMode::ABS, cycles: 6 },
        16 => InstrRef { opcode: 0x10, instr: Instr::BPL, addr_mode: AddrMode::REL, cycles: 2 },
        17 => InstrRef { opcode: 0x11, instr: Instr::ORA, addr_mode: AddrMode::IDY, cycles: 5 },
        18 => InstrRef { opcode: 0x12, instr: Instr::HLT, addr_mode: AddrMode::IMP, cycles: 2 },
        19 => InstrRef { opcode: 0x13, instr: Instr::SLO, addr_mode: AddrMode::IDYW, cycles: 8 },
        20 => InstrRef { opcode: 0x14, instr: Instr::NOP, addr_mode: AddrMode::ZPX, cycles: 4 },
        21 => InstrRef { opcode: 0x15, instr: Instr::ORA, addr_mode: AddrMode::ZPX, cycles: 4 },
        22 => InstrRef { opcode: 0x16, instr: Instr::ASL, addr_mode: AddrMode::ZPX, cycles: 6 },
        23 => InstrRef { opcode: 0x17, instr: Instr::SLO, addr_mode: AddrMode::ZPX, cycles: 6 },
        24 => InstrRef { opcode: 0x18, instr: Instr::CLC, addr_mode: AddrMode::IMP, cycles: 2 },
        25 => InstrRef { opcode: 0x19, instr: Instr::ORA, addr_mode: AddrMode::ABY, cycles: 4 },
        26 => InstrRef { opcode: 0x1A, instr: Instr::NOP, addr_mode: AddrMode::IMP, cycles: 2 },
        27 => InstrRef { opcode: 0x1B, instr: Instr::SLO, addr_mode: AddrMode::ABYW, cycles: 7 },
        28 => InstrRef { opcode: 0x1C, instr: Instr::NOP, addr_mode: AddrMode::ABX, cycles: 4 },
        29 => InstrRef { opcode: 0x1D, instr: Instr::ORA, addr_mode: AddrMode::ABX, cycles: 4 },
        30 => InstrRef { opcode: 0x1E, instr: Instr::ASL, addr_mode: AddrMode::ABXW, cycles: 7 },
        31 => InstrRef { opcode: 0x1F, instr: Instr::SLO, addr_mode: AddrMode::ABXW, cycles: 7 },
        32 => InstrRef { opcode: 0x20, instr: Instr::JSR, addr_mode: AddrMode::OTH, cycles: 6 },
        33 => InstrRef { opcode: 0x21, instr: Instr::AND, addr_mode: AddrMode::IDX, cycles: 6 },
        34 => InstrRef { opcode: 0x22, instr: Instr::HLT, addr_mode: AddrMode::IMP, cycles: 2 },
        35 => InstrRef { opcode: 0x23, instr: Instr::RLA, addr_mode: AddrMode::IDX, cycles: 8 },
        36 => InstrRef { opcode: 0x24, instr: Instr::BIT, addr_mode: AddrMode::ZP0, cycles: 3 },
        37 => InstrRef { opcode: 0x25, instr: Instr::AND, addr_mode: AddrMode::ZP0, cycles: 3 },
        38 => InstrRef { opcode: 0x26, instr: Instr::ROL, addr_mode: AddrMode::ZP0, cycles: 5 },
        39 => InstrRef { opcode: 0x27, instr: Instr::RLA, addr_mode: AddrMode::ZP0, cycles: 5 },
        40 => InstrRef { opcode: 0x28, instr: Instr::PLP, addr_mode: AddrMode::IMP, cycles: 4 },
        41 => InstrRef { opcode: 0x29, instr: Instr::AND, addr_mode: AddrMode::IMM, cycles: 2 },
        42 => InstrRef { opcode: 0x2A, instr: Instr::ROL, addr_mode: AddrMode::ACC, cycles: 2 },
        43 => InstrRef { opcode: 0x2B, instr: Instr::ANC, addr_mode: AddrMode::IMM, cycles: 2 },
        44 => InstrRef { opcode: 0x2C, instr: Instr::BIT, addr_mode: AddrMode::ABS, cycles: 4 },
        45 => InstrRef { opcode: 0x2D, instr: Instr::AND, addr_mode: AddrMode::ABS, cycles: 4 },
        46 => InstrRef { opcode: 0x2E, instr: Instr::ROL, addr_mode: AddrMode::ABS, cycles: 6 },
        47 => InstrRef { opcode: 0x2F, instr: Instr::RLA, addr_mode: AddrMode::ABS, cycles: 6 },
        48 => InstrRef { opcode: 0x30, instr: Instr::BMI, addr_mode: AddrMode::REL, cycles: 2 },
        49 => InstrRef { opcode: 0x31, instr: Instr::AND, addr_mode: AddrMode::IDY, cycles: 5 },
        50 => InstrRef { opcode: 0x32, instr: Instr::HLT, addr_mode: AddrMode::IMP, cycles: 2 },
        51 => InstrRef { opcode: 0x33, instr: Instr::RLA, addr_mode: AddrMode::IDYW, cycles: 8 },
        52 => InstrRef { opcode: 0x34, instr: Instr::NOP, addr_mode: AddrMode::ZPX, cycles: 4 },
        53 => InstrRef { opcode: 0x35, instr: Instr::AND, addr_mode: AddrMode::ZPX, cycles: 4 },
        54 => InstrRef { opcode: 0x36, instr: Instr::ROL, addr_mode: AddrMode::ZPX, cycles: 6 },
        55 => InstrRef { opcode: 0x37, instr: Instr::RLA, addr_mode: AddrMode::ZPX, cycles: 6 },
        56 => InstrRef { opcode: 0x38, instr: Instr::SEC, addr_mode: AddrMode::IMP, cycles: 2 },
        57 => InstrRef { opcode: 0x39, instr: Instr::AND, addr_mode: AddrMode::ABY, cycles: 4 },
        58 => InstrRef { opcode: 0x3A, instr: Instr::NOP, addr_mode: AddrMode::IMP, cycles: 2 },
        59 => InstrRef { opcode: 0x3B, instr: Instr::RLA, addr_mode: AddrMode::ABYW, cycles: 7 },
        60 => InstrRef { opcode: 0x3C, instr: Instr::NOP, addr_mode: AddrMode::ABX, cycles: 4 },
        61 => InstrRef { opcode: 0x3D, instr: Instr::AND, addr_mode: AddrMode::ABX, cycles: 4 },
        62 => InstrRef { opcode: 0x3E, instr: Instr::ROL, addr_mode: AddrMode::ABXW, cycles: 7 },
        63 => InstrRef { opcode: 0x3F, instr: Instr::RLA, addr_mode: AddrMode::ABXW, cycles: 7 },
        64 => InstrRef { opcode: 0x40, instr: Instr::RTI, addr_mode: AddrMode::IMP, cycles: 6 },
        65 => InstrRef { opcode: 0x41, instr: Instr::EOR, addr_mode: AddrMode::IDX, cycles: 6 },
        66 => InstrRef { opcode: 0x42, instr: Instr::HLT, addr_mode: AddrMode::IMP, cycles: 2 },
        67 => InstrRef { opcode: 0x43, instr: Instr::SRE, addr_mode: AddrMode::IDX, cycles: 8 },
        68 => InstrRef { opcode: 0x44, instr: Instr::NOP, addr_mode: AddrMode::ZP0, cycles: 3 },
        69 => InstrRef { opcode: 0x45, instr: Instr::EOR, addr_mode: AddrMode::ZP0, cycles: 3 },
        70 => InstrRef { opcode: 0x46, instr: Instr::LSR, addr_mode: AddrMode::ZP0, cycles: 5 },
        71 => InstrRef { opcode: 0x47, instr: Instr::SRE, addr_mode: AddrMode::ZP0, cycles: 5 },
        72 => InstrRef { opcode: 0x48, instr: Instr::PHA, addr_mode: AddrMode::IMP, cycles: 3 },
        73 => InstrRef { opcode: 0x49, instr: Instr::EOR, addr_mode: AddrMode::IMM, cycles: 2 },
        74 => InstrRef { opcode: 0x4A, instr: Instr::LSR, addr_mode: AddrMode::ACC, cycles: 2 },
        75 => InstrRef { opcode: 0x4B, instr: Instr::ALR, addr_mode: AddrMode::IMM, cycles: 2 },
        76 => InstrRef { opcode: 0x4C, instr: Instr::JMP, addr_mode: AddrMode::ABS, cycles: 3 },
        77 => InstrRef { opcode: 0x4D, instr: Instr::EOR, addr_mode: AddrMode::ABS, cycles: 4 },
        78 => InstrRef { opcode: 0x4E, instr: Instr::LSR, addr_mode: AddrMode::ABS, cycles: 6 },
        79 => InstrRef { opcode: 0x4F, instr: Instr::SRE, addr_mode: AddrMode::ABS, cycles: 6 },
        80 => InstrRef { opcode: 0x50, instr: Instr::BVC, addr_mode: AddrMode::REL, cycles: 2 },
        81 => InstrRef { opcode: 0x51, instr: Instr::EOR, addr_mode: AddrMode::IDY, cycles: 5 },
        82 => InstrRef { opcode: 0x52, instr: Instr::HLT, addr_mode: AddrMode::IMP, cycles: 2 },
        83 => InstrRef { opcode: 0x53, instr: Instr::SRE, addr_mode: AddrMode::IDYW, cycles: 8 },
        84 => InstrRef { opcode: 0x54, instr: Instr::NOP, addr_mode: AddrMode::ZPX, cycles: 4 },
        85 => InstrRef { opcode: 0x55, instr: Instr::EOR, addr_mode: AddrMode::ZPX, cycles: 4 },
        86 => InstrRef { opcode: 0x56, instr: Instr::LSR, addr_mode: AddrMode::ZPX, cycles: 6 },
        87 => InstrRef { opcode: 0x57, instr: Instr::SRE, addr_mode: AddrMode::ZPX, cycles: 6 },
        88 => InstrRef { opcode: 0x58, instr: Instr::CLI, addr_mode: AddrMode::IMP, cycles: 2 },
        89 => InstrRef { opcode: 0x59, instr: Instr::EOR, addr_mode: AddrMode::ABY, cycles: 4 },
        90 => InstrRef { opcode: 0x5A, instr: Instr::NOP, addr_mode: AddrMode::IMP, cycles: 2 },
        91 => InstrRef { opcode: 0x5B, instr: Instr::SRE, addr_mode: AddrMode::ABYW, cycles: 7 },
        92 => InstrRef { opcode: 0x5C, instr: Instr::NOP, addr_mode: AddrMode::ABX, cycles: 4 },
        93 => InstrRef { opcode: 0x5D, instr: Instr::EOR, addr_mode: AddrMode::ABX, cycles: 4 },
        94 => InstrRef { opcode: 0x5E, instr: Instr::LSR, addr_mode: AddrMode::ABXW, cycles: 7 },
        95 => InstrRef { opcode: 0x5F, instr: Instr::SRE, addr_mode: AddrMode::ABXW, cycles: 7 },
        96 => InstrRef { opcode: 0x60, instr: Instr::RTS, addr_mode: AddrMode::IMP, cycles: 6 },
        97 => InstrRef { opcode: 0x61, instr: Instr::ADC, addr_mode: AddrMode::IDX, cycles: 6 },
        98 => InstrRef { opcode: 0x62, instr: Instr::HLT, addr_mode: AddrMode::IMP, cycles: 2 },
        99 => InstrRef { opcode: 0x63, instr: Instr::RRA, addr_mode: AddrMode::IDX, cycles: 8 },
        100 => InstrRef { opcode: 0x64, instr: Instr::NOP, addr_mode: AddrMode::ZP0, cycles: 3 },
        101 => InstrRef { opcode: 0x65, instr: Instr::ADC, addr_mode: AddrMode::ZP0, cycles: 3 },
        102 => InstrRef { opcode: 0x66, instr: Instr::ROR, addr_mode: AddrMode::ZP0, cycles: 5 },
        103 => InstrRef { opcode: 0x67, instr: Instr::RRA, addr_mode: AddrMode::ZP0, cycles: 5 },
        104 => InstrRef { opcode: 0x68, instr: Instr::PLA, addr_mode: AddrMode::IMP, cycles: 4 },
        105 => InstrRef { opcode: 0x69, instr: Instr::ADC, addr_mode: AddrMode::IMM, cycles: 2 },
        106 => InstrRef { opcode: 0x6A, instr: Instr::ROR, addr_mode: AddrMode::ACC, cycles: 2 },
        107 => InstrRef { opcode: 0x6B, instr: Instr::ARR, addr_mode: AddrMode::IMM, cycles: 2 },
        108 => InstrRef { opcode: 0x6C, instr: Instr::JMP, addr_mode: AddrMode::IND, cycles: 5 },
        109 => InstrRef { opcode: 0x6D, instr: Instr::ADC, addr_mode: AddrMode::ABS, cycles: 4 },
        110 => InstrRef { opcode: 0x6E, instr: Instr::ROR, addr_mode: AddrMode::ABS, cycles: 6 },
        111 => InstrRef { opcode: 0x6F, instr: Instr::RRA, addr_mode: AddrMode::ABS, cycles: 6 },
        112 => InstrRef { opcode: 0x70, instr: Instr::BVS, addr_mode: AddrMode::REL, cycles: 2 },
        113 => InstrRef { opcode: 0x71, instr: Instr::ADC, addr_mode: AddrMode::IDY, cycles: 5 },
        114 => InstrRef { opcode: 0x72, instr: Instr::HLT, addr_mode: AddrMode::IMP, cycles: 2 },
        115 => InstrRef { opcode: 0x73, instr: Instr::RRA, addr_mode: AddrMode::IDYW, cycles: 8 },
        116 => InstrRef { opcode: 0x74, instr: Instr::NOP, addr_mode: AddrMode::ZPX, cycles: 4 },
        117 => InstrRef { opcode: 0x75, instr: Instr::ADC, addr_mode: AddrMode::ZPX, cycles: 4 },
        118 => InstrRef { opcode: 0x76, instr: Instr::ROR, addr_mode: AddrMode::ZPX, cycles: 6 },
        119 => InstrRef { opcode: 0x77, instr: Instr::RRA, addr_mode: AddrMode::ZPX, cycles: 6 },
        120 => InstrRef { opcode: 0x78, instr: Instr::SEI, addr_mode: AddrMode::IMP, cycles: 2 },
        121 => InstrRef { opcode: 0x79, instr: Instr::ADC, addr_mode: AddrMode::ABY, cycles: 4 },
        122 => InstrRef { opcode: 0x7A, instr: Instr::NOP, addr_mode: AddrMode::IMP, cycles: 2 },
        123 => InstrRef { opcode: 0x7B, instr: Instr::RRA, addr_mode: AddrMode::ABYW, cycles: 7 },
        124 => InstrRef { opcode: 0x7C, instr: Instr::NOP, addr_mode: AddrMode::ABX, cycles: 4 },
        125 => InstrRef { opcode: 0x7D, instr: Instr::ADC, addr_mode: AddrMode::ABX, cycles: 4 },
        126 => InstrRef { opcode: 0x7E, instr: Instr::ROR, addr_mode: AddrMode::ABXW, cycles: 7 },
        127 => InstrRef { opcode: 0x7F, instr: Instr::RRA, addr_mode: AddrMode::ABXW, cycles: 7 },
        128 => InstrRef { opcode: 0x80, instr: Instr::NOP, addr_mode: AddrMode::IMM, cycles: 2 },
        129 => InstrRef { opcode: 0x81, instr: Instr::STA, addr_mode: AddrMode::IDX, cycles: 6 },
        130 => InstrRef { opcode: 0x82, instr: Instr::NOP, addr_mode: AddrMode::IMM, cycles: 2 },
        131 => InstrRef { opcode: 0x83, instr: Instr::SAX, addr_mode: AddrMode::IDX, cycles: 6 },
        132 => InstrRef { opcode: 0x84, instr: Instr::STY, addr_mode: AddrMode::ZP0, cycles: 3 },
        133 => InstrRef { opcode: 0x85, instr: Instr::STA, addr_mode: AddrMode::ZP0, cycles: 3 },
        134 => InstrRef { opcode: 0x86, instr: Instr::STX, addr_mode: AddrMode::ZP0, cycles: 3 },
        135 => InstrRef { opcode: 0x87, instr: Instr::SAX, addr_mode: AddrMode::ZP0, cycles: 3 },
        136 => InstrRef { opcode: 0x88, instr: Instr::DEY, addr_mode: AddrMode::IMP, cycles: 2 },
        137 => InstrRef { opcode: 0x89, instr: Instr::NOP, addr_mode: AddrMode::IMM, cycles: 2 },
        138 => InstrRef { opcode: 0x8A, instr: Instr::TXA, addr_mode: AddrMode::IMP, cycles: 2 },
        139 => InstrRef { opcode: 0x8B, instr: Instr::XAA, addr_mode: AddrMode::IMM, cycles: 2 },
        140 => InstrRef { opcode: 0x8C, instr: Instr::STY, addr_mode: AddrMode::ABS, cycles: 4 },
        141 => InstrRef { opcode: 0x8D, instr: Instr::STA, addr_mode: AddrMode::ABS, cycles: 4 },
        142 => InstrRef { opcode: 0x8E, instr: Instr::STX, addr_mode: AddrMode::ABS, cycles: 4 },
        143 => InstrRef { opcode: 0x8F, instr: Instr::SAX, addr_mode: AddrMode::ABS, cycles: 4 },
        144 => InstrRef { opcode: 0x90, instr: Instr::BCC, addr_mode: AddrMode::REL, cycles: 2 },
        145 => InstrRef { opcode: 0x91, instr: Instr::STA, addr_mode: AddrMode::IDYW, cycles: 6 },
        146 => InstrRef { opcode: 0x92, instr: Instr::HLT, addr_mode: AddrMode::IMP, cycles: 2 },
        147 => InstrRef { opcode: 0x93, instr: Instr::AHX, addr_mode: AddrMode::OTH, cycles: 6 },
        148 => InstrRef { opcode: 0x94, instr: Instr::STY, addr_mode: AddrMode::ZPX, cycles: 4 },
        149 => InstrRef { opcode: 0x95, instr: Instr::STA, addr_mode: AddrMode::ZPX, cycles: 4 },
        150 => InstrRef { opcode: 0x96, instr: Instr::STX, addr_mode: AddrMode::ZPY, cycles: 4 },
        151 => InstrRef { opcode: 0x97, instr: Instr::SAX, addr_mode: AddrMode::ZPY, cycles: 4 },
        152 => InstrRef { opcode: 0x98, instr: Instr::TYA, addr_mode: AddrMode::IMP, cycles: 2 },
        153 => InstrRef { opcode: 0x99, instr: Instr::STA, addr_mode: AddrMode::ABYW, cycles: 5 },
        154 => InstrRef { opcode: 0x9A, instr: Instr::TXS, addr_mode: AddrMode::IMP, cycles: 2 },
        155 => InstrRef { opcode: 0x9B, instr: Instr::TAS, addr_mode: AddrMode::OTH, cycles: 5 },
        156 => InstrRef { opcode: 0x9C, instr: Instr::SYA, addr_mode: AddrMode::OTH, cycles: 5 },
        157 => InstrRef { opcode: 0x9D, instr: Instr::STA, addr_mode: AddrMode::ABXW, cycles: 5 },
        158 => InstrRef { opcode: 0x9E, instr: Instr::SXA, addr_mode: AddrMode::OTH, cycles: 5 },
        159 => InstrRef { opcode: 0x9F, instr: Instr::SHAA, addr_mode: AddrMode::OTH, cycles: 5 },
        160 => InstrRef { opcode: 0xA0, instr: Instr::LDY, addr_mode: AddrMode::IMM, cycles: 2 },
        161 => InstrRef { opcode: 0xA1, instr: Instr::LDA, addr_mode: AddrMode::IDX, cycles: 6 },
        162 => InstrRef { opcode: 0xA2, instr: Instr::LDX, addr_mode: AddrMode::IMM, cycles: 2 },
        163 => InstrRef { opcode: 0xA3, instr: Instr::LAX, addr_mode: AddrMode::IDX, cycles: 6 },
        164 => InstrRef { opcode: 0xA4, instr: Instr::LDY, addr_mode: AddrMode::ZP0, cycles: 3 },
        165 => InstrRef { opcode: 0xA5, instr: Instr::LDA, addr_mode: AddrMode::ZP0, cycles: 3 },
        166 => InstrRef { opcode: 0xA6, instr: Instr::LDX, addr_mode: AddrMode::ZP0, cycles: 3 },
        167 => InstrRef { opcode: 0xA7, instr: Instr::LAX, addr_mode: AddrMode::ZP0, cycles: 3 },
        168 => InstrRef { opcode: 0xA8, instr: Instr::TAY, addr_mode: AddrMode::IMP, cycles: 2 },
        169 => InstrRef { opcode: 0xA9, instr: Instr::LDA, addr_mode: AddrMode::IMM, cycles: 2 },
        170 => InstrRef { opcode: 0xAA, instr: Instr::TAX, addr_mode: AddrMode::IMP, cycles: 2 },
        171 => InstrRef { opcode: 0xAB, instr: Instr::ATX, addr_mode: AddrMode::IMM, cycles: 2 },
        172 => InstrRef { opcode: 0xAC, instr: Instr::LDY, addr_mode: AddrMode::ABS, cycles: 4 },
        173 => InstrRef { opcode: 0xAD, instr: Instr::LDA, addr_mode: AddrMode::ABS, cycles: 4 },
        174 => InstrRef { opcode: 0xAE, instr: Instr::LDX, addr_mode: AddrMode::ABS, cycles: 4 },
        175 => InstrRef { opcode: 0xAF, instr: Instr::LAX, addr_mode: AddrMode::ABS, cycles: 4 },
        176 => InstrRef { opcode: 0xB0, instr: Instr::BCS, addr_mode: AddrMode::REL, cycles: 2 },
        177 => InstrRef { opcode: 0xB1, instr: Instr::LDA, addr_mode: AddrMode::IDY, cycles: 5 },
        178 => InstrRef { opcode: 0xB2, instr: Instr::HLT, addr_mode: AddrMode::IMP, cycles: 2 },
        179 => InstrRef { opcode: 0xB3, instr: Instr::LAX, addr_mode: AddrMode::IDY, cycles: 5 },
        180 => InstrRef { opcode: 0xB4, instr: Instr::LDY, addr_mode: AddrMode::ZPX, cycles: 4 },
        181 => InstrRef { opcode: 0xB5, instr: Instr::LDA, addr_mode: AddrMode::ZPX, cycles: 4 },
        182 => InstrRef { opcode: 0xB6, instr: Instr::LDX, addr_mode: AddrMode::ZPY, cycles: 4 },
        183 => InstrRef { opcode: 0xB7, instr: Instr::LAX, addr_mode: AddrMode::ZPY, cycles: 4 },
        184 => InstrRef { opcode: 0xB8, instr: Instr::CLV, addr_mode: AddrMode::IMP, cycles: 2 },
        185 => InstrRef { opcode: 0xB9, instr: Instr::LDA, addr_mode: AddrMode::ABY, cycles: 4 },
        186 => InstrRef { opcode: 0xBA, instr: Instr::TSX, addr_mode: AddrMode::IMP, cycles: 2 },
        187 => InstrRef { opcode: 0xBB, instr: Instr::LAS, addr_mode: AddrMode::ABY, cycles: 4 },
        188 => InstrRef { opcode: 0xBC, instr: Instr::LDY, addr_mode: AddrMode::ABX, cycles: 4 },
        189 => InstrRef { opcode: 0xBD, instr: Instr::LDA, addr_mode: AddrMode::ABX, cycles: 4 },
        190 => InstrRef { opcode: 0xBE, instr: Instr::LDX, addr_mode: AddrMode::ABY, cycles: 4 },
        191 => InstrRef { opcode: 0xBF, instr: Instr::LAX, addr_mode: AddrMode::ABY, cycles: 4 },
        192 => InstrRef { opcode: 0xC0, instr: Instr::CPY, addr_mode: AddrMode::IMM, cycles: 2 },
        193 => InstrRef { opcode: 0xC1, instr: Instr::CMP, addr_mode: AddrMode::IDX, cycles: 6 },
        194 => InstrRef { opcode: 0xC2, instr: Instr::NOP, addr_mode: AddrMode::IMM, cycles: 2 },
        195 => InstrRef { opcode: 0xC3, instr: Instr::DCP, addr_mode: AddrMode::IDX, cycles: 8 },
        196 => InstrRef { opcode: 0xC4, instr: Instr::CPY, addr_mode: AddrMode::ZP0, cycles: 3 },
        197 => InstrRef { opcode: 0xC5, instr: Instr::CMP, addr_mode: AddrMode::ZP0, cycles: 3 },
        198 => InstrRef { opcode: 0xC6, instr: Instr::DEC, addr_mode: AddrMode::ZP0, cycles: 5 },
        199 => InstrRef { opcode: 0xC7, instr: Instr::DCP, addr_mode: AddrMode::ZP0, cycles: 5 },
        200 => InstrRef { opcode: 0xC8, instr: Instr::INY, addr_mode: AddrMode::IMP, cycles: 2 },
        201 => InstrRef { opcode: 0xC9, instr: Instr::CMP, addr_mode: AddrMode::IMM, cycles: 2 },
        202 => InstrRef { opcode: 0xCA, instr: Instr::DEX, addr_mode: AddrMode::IMP, cycles: 2 },
        203 => InstrRef { opcode: 0xCB, instr: Instr::AXS, addr_mode: AddrMode::IMM, cycles: 2 },
        204 => InstrRef { opcode: 0xCC, instr: Instr::CPY, addr_mode: AddrMode::ABS, cycles: 4 },
        205 => InstrRef { opcode: 0xCD, instr: Instr::CMP, addr_mode: AddrMode::ABS, cycles: 4 },
        206 => InstrRef { opcode: 0xCE, instr: Instr::DEC, addr_mode: AddrMode::ABS, cycles: 6 },
        207 => InstrRef { opcode: 0xCF, instr: Instr::DCP, addr_mode: AddrMode::ABS, cycles: 6 },
        208 => InstrRef { opcode: 0xD0, instr: Instr::BNE, addr_mode: AddrMode::REL, cycles: 2 },
        209 => InstrRef { opcode: 0xD1, instr: Instr::CMP, addr_mode: AddrMode::IDY, cycles: 5 },
        210 => InstrRef { opcode: 0xD2, instr: Instr::HLT, addr_mode: AddrMode::IMP, cycles: 2 },
        211 => InstrRef { opcode: 0xD3, instr: Instr::DCP, addr_mode: AddrMode::IDYW, cycles: 8 },
        212 => InstrRef { opcode: 0xD4, instr: Instr::NOP, addr_mode: AddrMode::ZPX, cycles: 4 },
        213 => InstrRef { opcode: 0xD5, instr: Instr::CMP, addr_mode: AddrMode::ZPX, cycles: 4 },
        214 => InstrRef { opcode: 0xD6, instr: Instr::DEC, addr_mode: AddrMode::ZPX, cycles: 6 },
        215 => InstrRef { opcode: 0xD7, instr: Instr::DCP, addr_mode: AddrMode::ZPX, cycles: 6 },
        216 => InstrRef { opcode: 0xD8, instr: Instr::CLD, addr_mode: AddrMode::IMP, cycles: 2 },
        217 => InstrRef { opcode: 0xD9, instr: Instr::CMP, addr_mode: AddrMode::ABY, cycles: 4 },
        218 => InstrRef { opcode: 0xDA, instr: Instr::NOP, addr_mode: AddrMode::IMP, cycles: 2 },
        219 => InstrRef { opcode: 0xDB, instr: Instr::DCP, addr_mode: AddrMode::ABYW, cycles: 7 },
        220 => InstrRef { opcode: 0xDC, instr: Instr::NOP, addr_mode: AddrMode::ABX, cycles: 4 },
        221 => InstrRef { opcode: 0xDD, instr: Instr::CMP, addr_mode: AddrMode::ABX, cycles: 4 },
        222 => InstrRef { opcode: 0xDE, instr: Instr::DEC, addr_mode: AddrMode::ABXW, cycles: 7 },
        223 => InstrRef { opcode: 0xDF, instr: Instr::DCP, addr_mode: AddrMode::ABXW, cycles: 7 },
        224 => InstrRef { opcode: 0xE0, instr: Instr::CPX, addr_mode: AddrMode::IMM, cycles: 2 },
        225 => InstrRef { opcode: 0xE1, instr: Instr::SBC, addr_mode: AddrMode::IDX, cycles: 6 },
        226 => InstrRef { opcode: 0xE2, instr: Instr::NOP, addr_mode: AddrMode::IMM, cycles: 2 },
        227 => InstrRef { opcode: 0xE3, instr: Instr::ISB, addr_mode: AddrMode::IDX, cycles: 8 },
        228 => InstrRef { opcode: 0xE4, instr: Instr::CPX, addr_mode: AddrMode::ZP0, cycles: 3 },
        229 => InstrRef { opcode: 0xE5, instr: Instr::SBC, addr_mode: AddrMode::ZP0, cycles: 3 },
        230 => InstrRef { opcode: 0xE6, instr: Instr::INC, addr_mode: AddrMode::ZP0, cycles: 5 },
        231 => InstrRef { opcode: 0xE7, instr: Instr::ISB, addr_mode: AddrMode::ZP0, cycles: 5 },
        232 => InstrRef { opcode: 0xE8, instr: Instr::INX, addr_mode: AddrMode::IMP, cycles: 2 },
        233 => InstrRef { opcode: 0xE9, instr: Instr::SBC, addr_mode: AddrMode::IMM, cycles: 2 },
        234 => InstrRef { opcode: 0xEA, instr: Instr::NOP, addr_mode: AddrMode::IMP, cycles: 2 },
        235 => InstrRef { opcode: 0xEB, instr: Instr::SBC, addr_mode: AddrMode::IMM, cycles: 2 },
        236 => InstrRef { opcode: 0xEC, instr: Instr::CPX, addr_mode: AddrMode::ABS, cycles: 4 },
        237 => InstrRef { opcode: 0xED, instr: Instr::SBC, addr_mode: AddrMode::ABS, cycles: 4 },
        238 => InstrRef { opcode: 0xEE, instr: Instr::INC, addr_mode: AddrMode::ABS, cycles: 6 },
        239 => InstrRef { opcode: 0xEF, instr: Instr::ISB, addr_mode: AddrMode::ABS, cycles: 6 },
        240 => InstrRef { opcode: 0xF0, instr: Instr::BEQ, addr_mode: AddrMode::REL, cycles: 2 },
        241 => InstrRef { opcode: 0xF1, instr: Instr::SBC, addr_mode: AddrMode::IDY, cycles: 5 },
        242 => InstrRef { opcode: 0xF2, instr: Instr::HLT, addr_mode: AddrMode::IMP, cycles: 2 },
        243 => InstrRef { opcode: 0xF3, instr: Instr::ISB, addr_mode: AddrMode::IDYW, cycles: 8 },
        244 => InstrRef { opcode: 0xF4, instr: Instr::NOP, addr_mode: AddrMode::ZPX, cycles: 4 },
        245 => InstrRef { opcode: 0xF5, instr: Instr::SBC, addr_mode: AddrMode::ZPX, cycles: 4 },
        246 => InstrRef { opcode: 0xF6, instr: Instr::INC, addr_mode: AddrMode::ZPX, cycles: 6 },
        247 => InstrRef { opcode: 0xF7, instr: Instr::ISB, addr_mode: AddrMode::ZPX, cycles: 6 },
        248 => InstrRef { opcode: 0xF8, instr: Instr::SED, addr_mode: AddrMode::IMP, cycles: 2 },
        249 => InstrRef { opcode: 0xF9, instr: Instr::SBC, addr_mode: AddrMode::ABY, cycles: 4 },
        250 => InstrRef { opcode: 0xFA, instr: Instr::NOP, addr_mode: AddrMode::IMP, cycles: 2 },
        251 => InstrRef { opcode: 0xFB, instr: Instr::ISB, addr_mode: AddrMode::ABYW, cycles: 7 },
        252 => InstrRef { opcode: 0xFC, instr: Instr::NOP, addr_mode: AddrMode::ABX, cycles: 4 },
        253 => InstrRef { opcode: 0xFD, instr: Instr::SBC, addr_mode: AddrMode::ABX, cycles: 4 },
        254 => InstrRef { opcode: 0xFE, instr: Instr::INC, addr_mode: AddrMode::ABXW, cycles: 7 },
        _ => InstrRef { opcode: 0xFF, instr: Instr::ISB, addr_mode: AddrMode::ABXW, cycles: 7 },
    }
}

/// CPU Opcode: the operation it runs and the addressing mode that fetches its operand.
#[derive(Debug, Copy, Clone, PartialEq, Eq, Structural)]
pub struct Op {
    pub f: Operation,
    pub addr_mode: AddrMode,
}

impl Op {
    /// Runs the operation on `cpu`.
    pub fn run(&self, cpu: &mut Cpu)
        requires
            old(cpu).wf(),
        ensures
            final(cpu).wf(),
            final(cpu)@ == operation_effect(self.f, old(cpu)@),
    {
        match self.f {
            Operation::Adc => cpu.adc(),
            Operation::Alr => cpu.alr(),
            Operation::Anc => cpu.anc(),
            Operation::And => cpu.and(),
            Operation::Arr => cpu.arr(),
            Operation::Asla => cpu.asla(),
            Operation::Aslm => cpu.aslm(),
            Operation::Atx => cpu.atx(),
            Operation::Axs => cpu.axs(),
            Operation::Bcc => cpu.bcc(),
            Operation::Bcs => cpu.bcs(),
            Operation::Beq => cpu.beq(),
            Operation::Bit => cpu.bit(),
            Operation::Bmi => cpu.bmi(),
            Operation::Bne => cpu.bne(),
            Operation::Bpl => cpu.bpl(),
            Operation::Brk => cpu.brk(),
            Operation::Bvc => cpu.bvc(),
            Operation::Bvs => cpu.bvs(),
            Operation::Clc => cpu.clc(),
            Operation::Cld => cpu.cld(),
            Operation::Cli => cpu.cli(),
            Operation::Clv => cpu.clv(),
            Operation::Cpa => cpu.cpa(),
            Operation::Cpx => cpu.cpx(),
            Operation::Cpy => cpu.cpy(),
            Operation::Dcp => cpu.dcp(),
            Operation::Dec => cpu.dec(),
            Operation::Dex => cpu.dex(),
            Operation::Dey => cpu.dey(),
            Operation::Eor => cpu.eor(),
            Operation::Hlt => cpu.hlt(),
            Operation::Inc => cpu.inc(),
            Operation::Inx => cpu.inx(),
            Operation::Iny => cpu.iny(),
            Operation::Isb => cpu.isb(),
            Operation::Jmpa => cpu.jmpa(),
            Operation::Jmpi => cpu.jmpi(),
            Operation::Jsr => cpu.jsr(),
            Operation::Las => cpu.las(),
            Operation::Lax => cpu.lax(),
            Operation::Lda => cpu.lda(),
            Operation::Ldx => cpu.ldx(),
            Operation::Ldy => cpu.ldy(),
            Operation::Lsra => cpu.lsra(),
            Operation::Lsrm => cpu.lsrm(),
            Operation::Nop => cpu.nop(),
            Operation::Ora => cpu.ora(),
            Operation::Pha => cpu.pha(),
            Operation::Php => cpu.php(),
            Operation::Pla => cpu.pla(),
            Operation::Plp => cpu.plp(),
            Operation::Rla => cpu.rla(),
            Operation::Rola => cpu.rola(),
            Operation::Rolm => cpu.rolm(),
            Operation::Rora => cpu.rora(),
            Operation::Rorm => cpu.rorm(),
            Operation::Rra => cpu.rra(),
            Operation::Rti => cpu.rti(),
            Operation::Rts => cpu.rts(),
            Operation::Sax => cpu.sax(),
            Operation::Sbc => cpu.sbc(),
            Operation::Sec => cpu.sec(),
            Operation::Sed => cpu.sed(),
            Operation::Sei => cpu.sei(),
            Operation::Shaa => cpu.shaa(),
            Operation::Shaz => cpu.shaz(),
            Operation::Slo => cpu.slo(),
            Operation::Sre => cpu.sre(),
            Operation::Sta => cpu.sta(),
            Operation::Stx => cpu.stx(),
            Operation::Sty => cpu.sty(),
            Operation::Sxa => cpu.sxa(),
            Operation::Sya => cpu.sya(),
            Operation::Tas => cpu.tas(),
            Operation::Tax => cpu.tax(),
            Operation::Tay => cpu.tay(),
            Operation::Tsx => cpu.tsx(),
            Operation::Txa => cpu.txa(),
            Operation::Txs => cpu.txs(),
            Operation::Tya => cpu.tya(),
            Operation::Xaa => cpu.xaa(),
        }
    }

    /// The addressing mode that fetches the operand.
    pub fn addr_mode(&self) -> (m: AddrMode)
        ensures
            m == self.addr_mode,
    {
        self.addr_mode
    }
}

impl Cpu {
    /// The operation and addressing mode of `opcode`, laid out as the 16x16 datasheet matrix.
    pub fn op(opcode: u8) -> (op: Op)
        ensures
            op == op_table(opcode),
    {
        match opcode {
            0 => Op { f: Operation::Brk, addr_mode: AddrMode::IMM },
            1 => Op { f: Operation::Ora, addr_mode: AddrMode::IDX },
            2 => Op { f: Operation::Hlt, addr_mode: AddrMode::IMP },
            3 => Op { f: Operation::Slo, addr_mode: AddrMode::IDX },
            4 => Op { f: Operation::Nop, addr_mode: AddrMode::ZP0 },
            5 => Op { f: Operation::Ora, addr_mode: AddrMode::ZP0 },
            6 => Op { f: Operation::Aslm, addr_mode: AddrMode::ZP0 },
            7 => Op { f: Operation::Slo, addr_mode: AddrMode::ZP0 },
            8 => Op { f: Operation::Php, addr_mode: AddrMode::IMP },
            9 => Op { f: Operation::Ora, addr_mode: AddrMode::IMM },
            10 => Op { f: Operation::Asla, addr_mode: AddrMode::ACC },
            11 => Op { f: Operation::Anc, addr_mode: AddrMode::IMM },
            12 => Op { f: Operation::Nop, addr_mode: AddrMode::ABS },
            13 => Op { f: Operation::Ora, addr_mode: AddrMode::ABS },
            14 => Op { f: Operation::Aslm, addr_mode: AddrMode::ABS },
            15 => Op { f: Operation::Slo, addr_mode: AddrMode::ABS },
            16 => Op { f: Operation::Bpl, addr_mode: AddrMode::REL },
            17 => Op { f: Operation::Ora, addr_mode: AddrMode::IDY },
            18 => Op { f: Operation::Hlt, addr_mode: AddrMode::IMP },
            19 => Op { f: Operation::Slo, addr_mode: AddrMode::IDYW },
            20 => Op { f: Operation::Nop, addr_mode: AddrMode::ZPX },
            21 => Op { f: Operation::Ora, addr_mode: AddrMode::ZPX },
            22 => Op { f: Operation::Aslm, addr_mode: AddrMode::ZPX },
            23 => Op { f: Operation::Slo, addr_mode: AddrMode::ZPX },
            24 => Op { f: Operation::Clc, addr_mode: AddrMode::IMP },
            25 => Op { f: Operation::Ora, addr_mode: AddrMode::ABY },
            26 => Op { f: Operation::Nop, addr_mode: AddrMode::IMP },
            27 => Op { f: Operation::Slo, addr_mode: AddrMode::ABYW },
            28 => Op { f: Operation::Nop, addr_mode: AddrMode::ABX },
            29 => Op { f: Operation::Ora, addr_mode: AddrMode::ABX },
            30 => Op { f: Operation::Aslm, addr_mode: AddrMode::ABXW },
            31 => Op { f: Operation::Slo, addr_mode: AddrMode::ABXW },
            32 => Op { f: Operation::Jsr, addr_mode: AddrMode::OTH },
            33 => Op { f: Operation::And, addr_mode: AddrMode::IDX },
            34 => Op { f: Operation::Hlt, addr_mode: AddrMode::IMP },
            35 => Op { f: Operation::Rla, addr_mode: AddrMode::IDX },
            36 => Op { f: Operation::Bit, addr_mode: AddrMode::ZP0 },
            37 => Op { f: Operation::And, addr_mode: AddrMode::ZP0 },
            38 => Op { f: Operation::Rolm, addr_mode: AddrMode::ZP0 },
            39 => Op { f: Operation::Rla, addr_mode: AddrMode::ZP0 },
            40 => Op { f: Operation::Plp, addr_mode: AddrMode::IMP },
            41 => Op { f: Operation::And, addr_mode: AddrMode::IMM },
            42 => Op { f: Operation::Rola, addr_mode: AddrMode::ACC },
            43 => Op { f: Operation::Anc, addr_mode: AddrMode::IMM },
            44 => Op { f: Operation::Bit, addr_mode: AddrMode::ABS },
            45 => Op { f: Operation::And, addr_mode: AddrMode::ABS },
            46 => Op { f: Operation::Rolm, addr_mode: AddrMode::ABS },
            47 => Op { f: Operation::Rla, addr_mode: AddrMode::ABS },
            48 => Op { f: Operation::Bmi, addr_mode: AddrMode::REL },
            49 => Op { f: Operation::And, addr_mode: AddrMode::IDY },
            50 => Op { f: Operation::Hlt, addr_mode: AddrMode::IMP },
            51 => Op { f: Operation::Rla, addr_mode: AddrMode::IDYW },
            52 => Op { f: Operation::Nop, addr_mode: AddrMode::ZPX },
            53 => Op { f: Operation::And, addr_mode: AddrMode::ZPX },
            54 => Op { f: Operation::Rolm, addr_mode: AddrMode::ZPX },
            55 => Op { f: Operation::Rla, addr_mode: AddrMode::ZPX },
            56 => Op { f: Operation::Sec, addr_mode: AddrMode::IMP },
            57 => Op { f: Operation::And, addr_mode: AddrMode::ABY },
            58 => Op { f: Operation::Nop, addr_mode: AddrMode::IMP },
            59 => Op { f: Operation::Rla, addr_mode: AddrMode::ABYW },
            60 => Op { f: Operation::Nop, addr_mode: AddrMode::ABX },
            61 => Op { f: Operation::And, addr_mode: AddrMode::ABX },
            62 => Op { f: Operation::Rolm, addr_mode: AddrMode::ABXW },
            63 => Op { f: Operation::Rla, addr_mode: AddrMode::ABXW },
            64 => Op { f: Operation::Rti, addr_mode: AddrMode::IMP },
            65 => Op { f: Operation::Eor, addr_mode: AddrMode::IDX },
            66 => Op { f: Operation::Hlt, addr_mode: AddrMode::IMP },
            67 => Op { f: Operation::Sre, addr_mode: AddrMode::IDX },
            68 => Op { f: Operation::Nop, addr_mode: AddrMode::ZP0 },
            69 => Op { f: Operation::Eor, addr_mode: AddrMode::ZP0 },
            70 => Op { f: Operation::Lsrm, addr_mode: AddrMode::ZP0 },
            71 => Op { f: Operation::Sre, addr_mode: AddrMode::ZP0 },
            72 => Op { f: Operation::Pha, addr_mode: AddrMode::IMP },
            73 => Op { f: Operation::Eor, addr_mode: AddrMode::IMM },
            74 => Op { f: Operation::Lsra, addr_mode: AddrMode::ACC },
            75 => Op { f: Operation::Alr, addr_mode: AddrMode::IMM },
            76 => Op { f: Operation::Jmpa, addr_mode: AddrMode::ABS },
            77 => Op { f: Operation::Eor, addr_mode: AddrMode::ABS },
            78 => Op { f: Operation::Lsrm, addr_mode: AddrMode::ABS },
            79 => Op { f: Operation::Sre, addr_mode: AddrMode::ABS },
            80 => Op { f: Operation::Bvc, addr_mode: AddrMode::REL },
            81 => Op { f: Operation::Eor, addr_mode: AddrMode::IDY },
            82 => Op { f: Operation::Hlt, addr_mode: AddrMode::IMP },
            83 => Op { f: Operation::Sre, addr_mode: AddrMode::IDYW },
            84 => Op { f: Operation::Nop, addr_mode: AddrMode::ZPX },
            85 => Op { f: Operation::Eor, addr_mode: AddrMode::ZPX },
            86 => Op { f: Operation::Lsrm, addr_mode: AddrMode::ZPX },
            87 => Op { f: Operation::Sre, addr_mode: AddrMode::ZPX },
            88 => Op { f: Operation::Cli, addr_mode: AddrMode::IMP },
            89 => Op { f: Operation::Eor, addr_mode: AddrMode::ABY },
            90 => Op { f: Operation::Nop, addr_mode: AddrMode::IMP },
            91 => Op { f: Operation::Sre, addr_mode: AddrMode::ABYW },
            92 => Op { f: Operation::Nop, addr_mode: AddrMode::ABX },
            93 => Op { f: Operation::Eor, addr_mode: AddrMode::ABX },
            94 => Op { f: Operation::Lsrm, addr_mode: AddrMode::ABXW },
            95 => Op { f: Operation::Sre, addr_mode: AddrMode::ABXW },
            96 => Op { f: Operation::Rts, addr_mode: AddrMode::IMP },
            97 => Op { f: Operation::Adc, addr_mode: AddrMode::IDX },
            98 => Op { f: Operation::Hlt, addr_mode: AddrMode::IMP },
            99 => Op { f: Operation::Rra, addr_mode: AddrMode::IDX },
            100 => Op { f: Operation::Nop, addr_mode: AddrMode::ZP0 },
            101 => Op { f: Operation::Adc, addr_mode: AddrMode::ZP0 },
            102 => Op { f: Operation::Rorm, addr_mode: AddrMode::ZP0 },
            103 => Op { f: Operation::Rra, addr_mode: AddrMode::ZP0 },
            104 => Op { f: Operation::Pla, addr_mode: AddrMode::IMP },
            105 => Op { f: Operation::Adc, addr_mode: AddrMode::IMM },
            106 => Op { f: Operation::Rora, addr_mode: AddrMode::ACC },
            107 => Op { f: Operation::Arr, addr_mode: AddrMode::IMM },
            108 => Op { f: Operation::Jmpi, addr_mode: AddrMode::IND },
            109 => Op { f: Operation::Adc, addr_mode: AddrMode::ABS },
            110 => Op { f: Operation::Rorm, addr_mode: AddrMode::ABS },
            111 => Op { f: Operation::Rra, addr_mode: AddrMode::ABS },
            112 => Op { f: Operation::Bvs, addr_mode: AddrMode::REL },
            113 => Op { f: Operation::Adc, addr_mode: AddrMode::IDY },
            114 => Op { f: Operation::Hlt, addr_mode: AddrMode::IMP },
            115 => Op { f: Operation::Rra, addr_mode: AddrMode::IDYW },
            116 => Op { f: Operation::Nop, addr_mode: AddrMode::ZPX },
            117 => Op { f: Operation::Adc, addr_mode: AddrMode::ZPX },
            118 => Op { f: Operation::Rorm, addr_mode: AddrMode::ZPX },
            119 => Op { f: Operation::Rra, addr_mode: AddrMode::ZPX },
            120 => Op { f: Operation::Sei, addr_mode: AddrMode::IMP },
            121 => Op { f: Operation::Adc, addr_mode: AddrMode::ABY },
            122 => Op { f: Operation::Nop, addr_mode: AddrMode::IMP },
            123 => Op { f: Operation::Rra, addr_mode: AddrMode::ABYW },
            124 => Op { f: Operation::Nop, addr_mode: AddrMode::ABX },
            125 => Op { f: Operation::Adc, addr_mode: AddrMode::ABX },
            126 => Op { f: Operation::Rorm, addr_mode: AddrMode::ABXW },
            127 => Op { f: Operation::Rra, addr_mode: AddrMode::ABXW },
            128 => Op { f: Operation::Nop, addr_mode: AddrMode::IMM },
            129 => Op { f: Operation::Sta, addr_mode: AddrMode::IDX },
            130 => Op { f: Operation::Nop, addr_mode: AddrMode::IMM },
            131 => Op { f: Operation::Sax, addr_mode: AddrMode::IDX },
            132 => Op { f: Operation::Sty, addr_mode: AddrMode::ZP0 },
            133 => Op { f: Operation::Sta, addr_mode: AddrMode::ZP0 },
            134 => Op { f: Operation::Stx, addr_mode: AddrMode::ZP0 },
            135 => Op { f: Operation::Sax, addr_mode: AddrMode::ZP0 },
            136 => Op { f: Operation::Dey, addr_mode: AddrMode::IMP },
            137 => Op { f: Operation::Nop, addr_mode: AddrMode::IMM },
            138 => Op { f: Operation::Txa, addr_mode: AddrMode::IMP },
            139 => Op { f: Operation::Xaa, addr_mode: AddrMode::IMM },
            140 => Op { f: Operation::Sty, addr_mode: AddrMode::ABS },
            141 => Op { f: Operation::Sta, addr_mode: AddrMode::ABS },
            142 => Op { f: Operation::Stx, addr_mode: AddrMode::ABS },
            143 => Op { f: Operation::Sax, addr_mode: AddrMode::ABS },
            144 => Op { f: Operation::Bcc, addr_mode: AddrMode::REL },
            145 => Op { f: Operation::Sta, addr_mode: AddrMode::IDYW },
            146 => Op { f: Operation::Hlt, addr_mode: AddrMode::IMP },
            147 => Op { f: Operation::Shaz, addr_mode: AddrMode::OTH },
            148 => Op { f: Operation::Sty, addr_mode: AddrMode::ZPX },
            149 => Op { f: Operation::Sta, addr_mode: AddrMode::ZPX },
            150 => Op { f: Operation::Stx, addr_mode: AddrMode::ZPY },
            151 => Op { f: Operation::Sax, addr_mode: AddrMode::ZPY },
            152 => Op { f: Operation::Tya, addr_mode: AddrMode::IMP },
            153 => Op { f: Operation::Sta, addr_mode: AddrMode::ABYW },
            154 => Op { f: Operation::Txs, addr_mode: AddrMode::IMP },
            155 => Op { f: Operation::Tas, addr_mode: AddrMode::OTH },
            156 => Op { f: Operation::Sya, addr_mode: AddrMode::OTH },
            157 => Op { f: Operation::Sta, addr_mode: AddrMode::ABXW },
            158 => Op { f: Operation::Sxa, addr_mode: AddrMode::OTH },
            159 => Op { f: Operation::Shaa, addr_mode: AddrMode::OTH },
            160 => Op { f: Operation::Ldy, addr_mode: AddrMode::IMM },
            161 => Op { f: Operation::Lda, addr_mode: AddrMode::IDX },
            162 => Op { f: Operation::Ldx, addr_mode: AddrMode::IMM },
            163 => Op { f: Operation::Lax, addr_mode: AddrMode::IDX },
            164 => Op { f: Operation::Ldy, addr_mode: AddrMode::ZP0 },
            165 => Op { f: Operation::Lda, addr_mode: AddrMode::ZP0 },
            166 => Op { f: Operation::Ldx, addr_mode: AddrMode::ZP0 },
            167 => Op { f: Operation::Lax, addr_mode: AddrMode::ZP0 },
            168 => Op { f: Operation::Tay, addr_mode: AddrMode::IMP },
            169 => Op { f: Operation::Lda, addr_mode: AddrMode::IMM },
            170 => Op { f: Operation::Tax, addr_mode: AddrMode::IMP },
            171 => Op { f: Operation::Atx, addr_mode: AddrMode::IMM },
            172 => Op { f: Operation::Ldy, addr_mode: AddrMode::ABS },
            173 => Op { f: Operation::Lda, addr_mode: AddrMode::ABS },
            174 => Op { f: Operation::Ldx, addr_mode: AddrMode::ABS },
            175 => Op { f: Operation::Lax, addr_mode: AddrMode::ABS },
            176 => Op { f: Operation::Bcs, addr_mode: AddrMode::REL },
            177 => Op { f: Operation::Lda, addr_mode: AddrMode::IDY },
            178 => Op { f: Operation::Hlt, addr_mode: AddrMode::IMP },
            179 => Op { f: Operation::Lax, addr_mode: AddrMode::IDY },
            180 => Op { f: Operation::Ldy, addr_mode: AddrMode::ZPX },
            181 => Op { f: Operation::Lda, addr_mode: AddrMode::ZPX },
            182 => Op { f: Operation::Ldx, addr_mode: AddrMode::ZPY },
            183 => Op { f: Operation::Lax, addr_mode: AddrMode::ZPY },
            184 => Op { f: Operation::Clv, addr_mode: AddrMode::IMP },
            185 => Op { f: Operation::Lda, addr_mode: AddrMode::ABY },
            186 => Op { f: Operation::Tsx, addr_mode: AddrMode::IMP },
            187 => Op { f: Operation::Las, addr_mode: AddrMode::ABY },
            188 => Op { f: Operation::Ldy, addr_mode: AddrMode::ABX },
            189 => Op { f: Operation::Lda, addr_mode: AddrMode::ABX },
            190 => Op { f: Operation::Ldx, addr_mode: AddrMode::ABY },
            191 => Op { f: Operation::Lax, addr_mode: AddrMode::ABY },
            192 => Op { f: Operation::Cpy, addr_mode: AddrMode::IMM },
            193 => Op { f: Operation::Cpa, addr_mode: AddrMode::IDX },
            194 => Op { f: Operation::Nop, addr_mode: AddrMode::IMM },
            195 => Op { f: Operation::Dcp, addr_mode: AddrMode::IDX },
            196 => Op { f: Operation::Cpy, addr_mode: AddrMode::ZP0 },
            197 => Op { f: Operation::Cpa, addr_mode: AddrMode::ZP0 },
            198 => Op { f: Operation::Dec, addr_mode: AddrMode::ZP0 },
            199 => Op { f: Operation::Dcp, addr_mode: AddrMode::ZP0 },
            200 => Op { f: Operation::Iny, addr_mode: AddrMode::IMP },
            201 => Op { f: Operation::Cpa, addr_mode: AddrMode::IMM },
            202 => Op { f: Operation::Dex, addr_mode: AddrMode::IMP },
            203 => Op { f: Operation::Axs, addr_mode: AddrMode::IMM },
            204 => Op { f: Operation::Cpy, addr_mode: AddrMode::ABS },
            205 => Op { f: Operation::Cpa, addr_mode: AddrMode::ABS },
            206 => Op { f: Operation::Dec, addr_mode: AddrMode::ABS },
            207 => Op { f: Operation::Dcp, addr_mode: AddrMode::ABS },
            208 => Op { f: Operation::Bne, addr_mode: AddrMode::REL },
            209 => Op { f: Operation::Cpa, addr_mode: AddrMode::IDY },
            210 => Op { f: Operation::Hlt, addr_mode: AddrMode::IMP },
            211 => Op { f: Operation::Dcp, addr_mode: AddrMode::IDYW },
            212 => Op { f: Operation::Nop, addr_mode: AddrMode::ZPX },
            213 => Op { f: Operation::Cpa, addr_mode: AddrMode::ZPX },
            214 => Op { f: Operation::Dec, addr_mode: AddrMode::ZPX },
            215 => Op { f: Operation::Dcp, addr_mode: AddrMode::ZPX },
            216 => Op { f: Operation::Cld, addr_mode: AddrMode::IMP },
            217 => Op { f: Operation::Cpa, addr_mode: AddrMode::ABY },
            218 => Op { f: Operation::Nop, addr_mode: AddrMode::IMP },
            219 => Op { f: Operation::Dcp, addr_mode: AddrMode::ABYW },
            220 => Op { f: Operation::Nop, addr_mode: AddrMode::ABX },
            221 => Op { f: Operation::Cpa, addr_mode: AddrMode::ABX },
            222 => Op { f: Operation::Dec, addr_mode: AddrMode::ABXW },
            223 => Op { f: Operation::Dcp, addr_mode: AddrMode::ABXW },
            224 => Op { f: Operation::Cpx, addr_mode: AddrMode::IMM },
            225 => Op { f: Operation::Sbc, addr_mode: AddrMode::IDX },
            226 => Op { f: Operation::Nop, addr_mode: AddrMode::IMM },
            227 => Op { f: Operation::Isb, addr_mode: AddrMode::IDX },
            228 => Op { f: Operation::Cpx, addr_mode: AddrMode::ZP0 },
            229 => Op { f: Operation::Sbc, addr_mode: AddrMode::ZP0 },
            230 => Op { f: Operation::Inc, addr_mode: AddrMode::ZP0 },
            231 => Op { f: Operation::Isb, addr_mode: AddrMode::ZP0 },
            232 => Op { f: Operation::Inx, addr_mode: AddrMode::IMP },
            233 => Op { f: Operation::Sbc, addr_mode: AddrMode::IMM },
            234 => Op { f: Operation::Nop, addr_mode: AddrMode::IMP },
            235 => Op { f: Operation::Sbc, addr_mode: AddrMode::IMM },
            236 => Op { f: Operation::Cpx, addr_mode: AddrMode::ABS },
            237 => Op { f: Operation::Sbc, addr_mode: AddrMode::ABS },
            238 => Op { f: Operation::Inc, addr_mode: AddrMode::ABS },
            239 => Op { f: Operation::Isb, addr_mode: AddrMode::ABS },
            240 => Op { f: Operation::Beq, addr_mode: AddrMode::REL },
            241 => Op { f: Operation::Sbc, addr_mode: AddrMode::IDY },
            242 => Op { f: Operation::Hlt, addr_mode: AddrMode::IMP },
            243 => Op { f: Operation::Isb, addr_mode: AddrMode::IDYW },
            244 => Op { f: Operation::Nop, addr_mode: AddrMode::ZPX },
            245 => Op { f: Operation::Sbc, addr_mode: AddrMode::ZPX },
            246 => Op { f: Operation::Inc, addr_mode: AddrMode::ZPX },
            247 => Op { f: Operation::Isb, addr_mode: AddrMode::ZPX },
            248 => Op { f: Operation::Sed, addr_mode: AddrMode::IMP },
            249 => Op { f: Operation::Sbc, addr_mode: AddrMode::ABY },
            250 => Op { f: Operation::Nop, addr_mode: AddrMode::IMP },
            251 => Op { f: Operation::Isb, addr_mode: AddrMode::ABYW },
            252 => Op { f: Operation::Nop, addr_mode: AddrMode::ABX },
            253 => Op { f: Operation::Sbc, addr_mode: AddrMode::ABX },
            254 => Op { f: Operation::Inc, addr_mode: AddrMode::ABXW },
            _ => Op { f: Operation::Isb, addr_mode: AddrMode::ABXW },
        }
    }

    /// The reference entry - mnemonic, addressing mode and base cycle count - of `opcode`.
    pub fn instr_ref(opcode: u8) -> (r: InstrRef)
        ensures
            r == instr_ref_table(opcode),
            r.opcode == opcode,
    {
        match opcode {
            0x00 => InstrRef { opcode: 0x00, instr: Instr::BRK, addr_mode: AddrMode::IMM, cycles: 7 },
            0x01 => InstrRef { opcode: 0x01, instr: Instr::ORA, addr_mode: AddrMode::IDX, cycles: 6 },
            0x02 => InstrRef { opcode: 0x02, instr: Instr::HLT, addr_mode: AddrMode::IMP, cycles: 2 },
            0x03 => InstrRef { opcode: 0x03, instr: Instr::SLO, addr_mode: AddrMode::IDX, cycles: 8 },
            0x04 => InstrRef { opcode: 0x04, instr: Instr::NOP, addr_mode: AddrMode::ZP0, cycles: 3 },
            0x05 => InstrRef { opcode: 0x05, instr: Instr::ORA, addr_mode: AddrMode::ZP0, cycles: 3 },
            0x06 => InstrRef { opcode: 0x06, instr: Instr::ASL, addr_mode: AddrMode::ZP0, cycles: 5 },
            0x07 => InstrRef { opcode: 0x07, instr: Instr::SLO, addr_mode: AddrMode::ZP0, cycles: 5 },
            0x08 => InstrRef { opcode: 0x08, instr: Instr::PHP, addr_mode: AddrMode::IMP, cycles: 3 },
            0x09 => InstrRef { opcode: 0x09, instr: Instr::ORA, addr_mode: AddrMode::IMM, cycles: 2 },
            0x0A => InstrRef { opcode: 0x0A, instr: Instr::ASL, addr_mode: AddrMode::ACC, cycles: 2 },
            0x0B => InstrRef { opcode: 0x0B, instr: Instr::ANC, addr_mode: AddrMode::IMM, cycles: 2 },
            0x0C => InstrRef { opcode: 0x0C, instr: Instr::NOP, addr_mode: AddrMode::ABS, cycles: 4 },
            0x0D => InstrRef { opcode: 0x0D, instr: Instr::ORA, addr_mode: AddrMode::ABS, cycles: 4 },
            0x0E => InstrRef { opcode: 0x0E, instr: Instr::ASL, addr_mode: AddrMode::ABS, cycles: 6 },
            0x0F => InstrRef { opcode: 0x0F, instr: Instr::SLO, addr_mode: AddrMode::ABS, cycles: 6 },
            0x10 => InstrRef { opcode: 0x10, instr: Instr::BPL, addr_mode: AddrMode::REL, cycles: 2 },
            0x11 => InstrRef { opcode: 0x11, instr: Instr::ORA, addr_mode: AddrMode::IDY, cycles: 5 },
            0x12 => InstrRef { opcode: 0x12, instr: Instr::HLT, addr_mode: AddrMode::IMP, cycles: 2 },
            0x13 => InstrRef { opcode: 0x13, instr: Instr::SLO, addr_mode: AddrMode::IDYW, cycles: 8 },
            0x14 => InstrRef { opcode: 0x14, instr: Instr::NOP, addr_mode: AddrMode::ZPX, cycles: 4 },
            0x15 => InstrRef { opcode: 0x15, instr: Instr::ORA, addr_mode: AddrMode::ZPX, cycles: 4 },
            0x16 => InstrRef { opcode: 0x16, instr: Instr::ASL, addr_mode: AddrMode::ZPX, cycles: 6 },
            0x17 => InstrRef { opcode: 0x17, instr: Instr::SLO, addr_mode: AddrMode::ZPX, cycles: 6 },
            0x18 => InstrRef { opcode: 0x18, instr: Instr::CLC, addr_mode: AddrMode::IMP, cycles: 2 },
            0x19 => InstrRef { opcode: 0x19, instr: Instr::ORA, addr_mode: AddrMode::ABY, cycles: 4 },
            0x1A => InstrRef { opcode: 0x1A, instr: Instr::NOP, addr_mode: AddrMode::IMP, cycles: 2 },
            0x1B => InstrRef { opcode: 0x1B, instr: Instr::SLO, addr_mode: AddrMode::ABYW, cycles: 7 },
            0x1C => InstrRef { opcode: 0x1C, instr: Instr::NOP, addr_mode: AddrMode::ABX, cycles: 4 },
            0x1D => InstrRef { opcode: 0x1D, instr: Instr::ORA, addr_mode: AddrMode::ABX, cycles: 4 },
            0x1E => InstrRef { opcode: 0x1E, instr: Instr::ASL, addr_mode: AddrMode::ABXW, cycles: 7 },
            0x1F => InstrRef { opcode: 0x1F, instr: Instr::SLO, addr_mode: AddrMode::ABXW, cycles: 7 },
            0x20 => InstrRef { opcode: 0x20, instr: Instr::JSR, addr_mode: AddrMode::OTH, cycles: 6 },
            0x21 => InstrRef { opcode: 0x21, instr: Instr::AND, addr_mode: AddrMode::IDX, cycles: 6 },
            0x22 => InstrRef { opcode: 0x22, instr: Instr::HLT, addr_mode: AddrMode::IMP, cycles: 2 },
            0x23 => InstrRef { opcode: 0x23, instr: Instr::RLA, addr_mode: AddrMode::IDX, cycles: 8 },
            0x24 => InstrRef { opcode: 0x24, instr: Instr::BIT, addr_mode: AddrMode::ZP0, cycles: 3 },
            0x25 => InstrRef { opcode: 0x25, instr: Instr::AND, addr_mode: AddrMode::ZP0, cycles: 3 },
            0x26 => InstrRef { opcode: 0x26, instr: Instr::ROL, addr_mode: AddrMode::ZP0, cycles: 5 },
            0x27 => InstrRef { opcode: 0x27, instr: Instr::RLA, addr_mode: AddrMode::ZP0, cycles: 5 },
            0x28 => InstrRef { opcode: 0x28, instr: Instr::PLP, addr_mode: AddrMode::IMP, cycles: 4 },
            0x29 => InstrRef { opcode: 0x29, instr: Instr::AND, addr_mode: AddrMode::IMM, cycles: 2 },
            0x2A => InstrRef { opcode: 0x2A, instr: Instr::ROL, addr_mode: AddrMode::ACC, cycles: 2 },
            0x2B => InstrRef { opcode: 0x2B, instr: Instr::ANC, addr_mode: AddrMode::IMM, cycles: 2 },
            0x2C => InstrRef { opcode: 0x2C, instr: Instr::BIT, addr_mode: AddrMode::ABS, cycles: 4 },
            0x2D => InstrRef { opcode: 0x2D, instr: Instr::AND, addr_mode: AddrMode::ABS, cycles: 4 },
            0x2E => InstrRef { opcode: 0x2E, instr: Instr::ROL, addr_mode: AddrMode::ABS, cycles: 6 },
            0x2F => InstrRef { opcode: 0x2F, instr: Instr::RLA, addr_mode: AddrMode::ABS, cycles: 6 },
            0x30 => InstrRef { opcode: 0x30, instr: Instr::BMI, addr_mode: AddrMode::REL, cycles: 2 },
            0x31 => InstrRef { opcode: 0x31, instr: Instr::AND, addr_mode: AddrMode::IDY, cycles: 5 },
            0x32 => InstrRef { opcode: 0x32, instr: Instr::HLT, addr_mode: AddrMode::IMP, cycles: 2 },
            0x33 => InstrRef { opcode: 0x33, instr: Instr::RLA, addr_mode: AddrMode::IDYW, cycles: 8 },
            0x34 => InstrRef { opcode: 0x34, instr: Instr::NOP, addr_mode: AddrMode::ZPX, cycles: 4 },
            0x35 => InstrRef { opcode: 0x35, instr: Instr::AND, addr_mode: AddrMode::ZPX, cycles: 4 },
            0x36 => InstrRef { opcode: 0x36, instr: Instr::ROL, addr_mode: AddrMode::ZPX, cycles: 6 },
            0x37 => InstrRef { opcode: 0x37, instr: Instr::RLA, addr_mode: AddrMode::ZPX, cycles: 6 },
            0x38 => InstrRef { opcode: 0x38, instr: Instr::SEC, addr_mode: AddrMode::IMP, cycles: 2 },
            0x39 => InstrRef { opcode: 0x39, instr: Instr::AND, addr_mode: AddrMode::ABY, cycles: 4 },
            0x3A => InstrRef { opcode: 0x3A, instr: Instr::NOP, addr_mode: AddrMode::IMP, cycles: 2 },
            0x3B => InstrRef { opcode: 0x3B, instr: Instr::RLA, addr_mode: AddrMode::ABYW, cycles: 7 },
            0x3C => InstrRef { opcode: 0x3C, instr: Instr::NOP, addr_mode: AddrMode::ABX, cycles: 4 },
            0x3D => InstrRef { opcode: 0x3D, instr: Instr::AND, addr_mode: AddrMode::ABX, cycles: 4 },
            0x3E => InstrRef { opcode: 0x3E, instr: Instr::ROL, addr_mode: AddrMode::ABXW, cycles: 7 },
            0x3F => InstrRef { opcode: 0x3F, instr: Instr::RLA, addr_mode: AddrMode::ABXW, cycles: 7 },
            0x40 => InstrRef { opcode: 0x40, instr: Instr::RTI, addr_mode: AddrMode::IMP, cycles: 6 },
            0x41 => InstrRef { opcode: 0x41, instr: Instr::EOR, addr_mode: AddrMode::IDX, cycles: 6 },
            0x42 => InstrRef { opcode: 0x42, instr: Instr::HLT, addr_mode: AddrMode::IMP, cycles: 2 },
            0x43 => InstrRef { opcode: 0x43, instr: Instr::SRE, addr_mode: AddrMode::IDX, cycles: 8 },
            0x44 => InstrRef { opcode: 0x44, instr: Instr::NOP, addr_mode: AddrMode::ZP0, cycles: 3 },
            0x45 => InstrRef { opcode: 0x45, instr: Instr::EOR, addr_mode: AddrMode::ZP0, cycles: 3 },
            0x46 => InstrRef { opcode: 0x46, instr: Instr::LSR, addr_mode: AddrMode::ZP0, cycles: 5 },
            0x47 => InstrRef { opcode: 0x47, instr: Instr::SRE, addr_mode: AddrMode::ZP0, cycles: 5 },
            0x48 => InstrRef { opcode: 0x48, instr: Instr::PHA, addr_mode: AddrMode::IMP, cycles: 3 },
            0x49 => InstrRef { opcode: 0x49, instr: Instr::EOR, addr_mode: AddrMode::IMM, cycles: 2 },
            0x4A => InstrRef { opcode: 0x4A, instr: Instr::LSR, addr_mode: AddrMode::ACC, cycles: 2 },
            0x4B => InstrRef { opcode: 0x4B, instr: Instr::ALR, addr_mode: AddrMode::IMM, cycles: 2 },
            0x4C => InstrRef { opcode: 0x4C, instr: Instr::JMP, addr_mode: AddrMode::ABS, cycles: 3 },
            0x4D => InstrRef { opcode: 0x4D, instr: Instr::EOR, addr_mode: AddrMode::ABS, cycles: 4 },
            0x4E => InstrRef { opcode: 0x4E, instr: Instr::LSR, addr_mode: AddrMode::ABS, cycles: 6 },
            0x4F => InstrRef { opcode: 0x4F, instr: Instr::SRE, addr_mode: AddrMode::ABS, cycles: 6 },
            0x50 => InstrRef { opcode: 0x50, instr: Instr::BVC, addr_mode: AddrMode::REL, cycles: 2 },
            0x51 => InstrRef { opcode: 0x51, instr: Instr::EOR, addr_mode: AddrMode::IDY, cycles: 5 },
            0x52 => InstrRef { opcode: 0x52, instr: Instr::HLT, addr_mode: AddrMode::IMP, cycles: 2 },
            0x53 => InstrRef { opcode: 0x53, instr: Instr::SRE, addr_mode: AddrMode::IDYW, cycles: 8 },
            0x54 => InstrRef { opcode: 0x54, instr: Instr::NOP, addr_mode: AddrMode::ZPX, cycles: 4 },
            0x55 => InstrRef { opcode: 0x55, instr: Instr::EOR, addr_mode: AddrMode::ZPX, cycles: 4 },
            0x56 => InstrRef { opcode: 0x56, instr: Instr::LSR, addr_mode: AddrMode::ZPX, cycles: 6 },
            0x57 => InstrRef { opcode: 0x57, instr: Instr::SRE, addr_mode: AddrMode::ZPX, cycles: 6 },
            0x58 => InstrRef { opcode: 0x58, instr: Instr::CLI, addr_mode: AddrMode::IMP, cycles: 2 },
            0x59 => InstrRef { opcode: 0x59, instr: Instr::EOR, addr_mode: AddrMode::ABY, cycles: 4 },
            0x5A => InstrRef { opcode: 0x5A, instr: Instr::NOP, addr_mode: AddrMode::IMP, cycles: 2 },
            0x5B => InstrRef { opcode: 0x5B, instr: Instr::SRE, addr_mode: AddrMode::ABYW, cycles: 7 },
            0x5C => InstrRef { opcode: 0x5C, instr: Instr::NOP, addr_mode: AddrMode::ABX, cycles: 4 },
            0x5D => InstrRef { opcode: 0x5D, instr: Instr::EOR, addr_mode: AddrMode::ABX, cycles: 4 },
            0x5E => InstrRef { opcode: 0x5E, instr: Instr::LSR, addr_mode: AddrMode::ABXW, cycles: 7 },
            0x5F => InstrRef { opcode: 0x5F, instr: Instr::SRE, addr_mode: AddrMode::ABXW, cycles: 7 },
            0x60 => InstrRef { opcode: 0x60, instr: Instr::RTS, addr_mode: AddrMode::IMP, cycles: 6 },
            0x61 => InstrRef { opcode: 0x61, instr: Instr::ADC, addr_mode: AddrMode::IDX, cycles: 6 },
            0x62 => InstrRef { opcode: 0x62, instr: Instr::HLT, addr_mode: AddrMode::IMP, cycles: 2 },
            0x63 => InstrRef { opcode: 0x63, instr: Instr::RRA, addr_mode: AddrMode::IDX, cycles: 8 },
            0x64 => InstrRef { opcode: 0x64, instr: Instr::NOP, addr_mode: AddrMode::ZP0, cycles: 3 },
            0x65 => InstrRef { opcode: 0x65, instr: Instr::ADC, addr_mode: AddrMode::ZP0, cycles: 3 },
            0x66 => InstrRef { opcode: 0x66, instr: Instr::ROR, addr_mode: AddrMode::ZP0, cycles: 5 },
            0x67 => InstrRef { opcode: 0x67, instr: Instr::RRA, addr_mode: AddrMode::ZP0, cycles: 5 },
            0x68 => InstrRef { opcode: 0x68, instr: Instr::PLA, addr_mode: AddrMode::IMP, cycles: 4 },
            0x69 => InstrRef { opcode: 0x69, instr: Instr::ADC, addr_mode: AddrMode::IMM, cycles: 2 },
            0x6A => InstrRef { opcode: 0x6A, instr: Instr::ROR, addr_mode: AddrMode::ACC, cycles: 2 },
            0x6B => InstrRef { opcode: 0x6B, instr: Instr::ARR, addr_mode: AddrMode::IMM, cycles: 2 },
            0x6C => InstrRef { opcode: 0x6C, instr: Instr::JMP, addr_mode: AddrMode::IND, cycles: 5 },
            0x6D => InstrRef { opcode: 0x6D, instr: Instr::ADC, addr_mode: AddrMode::ABS, cycles: 4 },
            0x6E => InstrRef { opcode: 0x6E, instr: Instr::ROR, addr_mode: AddrMode::ABS, cycles: 6 },
            0x6F => InstrRef { opcode: 0x6F, instr: Instr::RRA, addr_mode: AddrMode::ABS, cycles: 6 },
            0x70 => InstrRef { opcode: 0x70, instr: Instr::BVS, addr_mode: AddrMode::REL, cycles: 2 },
            0x71 => InstrRef { opcode: 0x71, instr: Instr::ADC, addr_mode: AddrMode::IDY, cycles: 5 },
            0x72 => InstrRef { opcode: 0x72, instr: Instr::HLT, addr_mode: AddrMode::IMP, cycles: 2 },
            0x73 => InstrRef { opcode: 0x73, instr: Instr::RRA, addr_mode: AddrMode::IDYW, cycles: 8 },
            0x74 => InstrRef { opcode: 0x74, instr: Instr::NOP, addr_mode: AddrMode::ZPX, cycles: 4 },
            0x75 => InstrRef { opcode: 0x75, instr: Instr::ADC, addr_mode: AddrMode::ZPX, cycles: 4 },
            0x76 => InstrRef { opcode: 0x76, instr: Instr::ROR, addr_mode: AddrMode::ZPX, cycles: 6 },
            0x77 => InstrRef { opcode: 0x77, instr: Instr::RRA, addr_mode: AddrMode::ZPX, cycles: 6 },
            0x78 => InstrRef { opcode: 0x78, instr: Instr::SEI, addr_mode: AddrMode::IMP, cycles: 2 },
            0x79 => InstrRef { opcode: 0x79, instr: Instr::ADC, addr_mode: AddrMode::ABY, cycles: 4 },
            0x7A => InstrRef { opcode: 0x7A, instr: Instr::NOP, addr_mode: AddrMode::IMP, cycles: 2 },
            0x7B => InstrRef { opcode: 0x7B, instr: Instr::RRA, addr_mode: AddrMode::ABYW, cycles: 7 },
            0x7C => InstrRef { opcode: 0x7C, instr: Instr::NOP, addr_mode: AddrMode::ABX, cycles: 4 },
            0x7D => InstrRef { opcode: 0x7D, instr: Instr::ADC, addr_mode: AddrMode::ABX, cycles: 4 },
            0x7E => InstrRef { opcode: 0x7E, instr: Instr::ROR, addr_mode: AddrMode::ABXW, cycles: 7 },
            0x7F => InstrRef { opcode: 0x7F, instr: Instr::RRA, addr_mode: AddrMode::ABXW, cycles: 7 },
            0x80 => InstrRef { opcode: 0x80, instr: Instr::NOP, addr_mode: AddrMode::IMM, cycles: 2 },
            0x81 => InstrRef { opcode: 0x81, instr: Instr::STA, addr_mode: AddrMode::IDX, cycles: 6 },
            0x82 => InstrRef { opcode: 0x82, instr: Instr::NOP, addr_mode: AddrMode::IMM, cycles: 2 },
            0x83 => InstrRef { opcode: 0x83, instr: Instr::SAX, addr_mode: AddrMode::IDX, cycles: 6 },
            0x84 => InstrRef { opcode: 0x84, instr: Instr::STY, addr_mode: AddrMode::ZP0, cycles: 3 },
            0x85 => InstrRef { opcode: 0x85, instr: Instr::STA, addr_mode: AddrMode::ZP0, cycles: 3 },
            0x86 => InstrRef { opcode: 0x86, instr: Instr::STX, addr_mode: AddrMode::ZP0, cycles: 3 },
            0x87 => InstrRef { opcode: 0x87, instr: Instr::SAX, addr_mode: AddrMode::ZP0, cycles: 3 },
            0x88 => InstrRef { opcode: 0x88, instr: Instr::DEY, addr_mode: AddrMode::IMP, cycles: 2 },
            0x89 => InstrRef { opcode: 0x89, instr: Instr::NOP, addr_mode: AddrMode::IMM, cycles: 2 },
            0x8A => InstrRef { opcode: 0x8A, instr: Instr::TXA, addr_mode: AddrMode::IMP, cycles: 2 },
            0x8B => InstrRef { opcode: 0x8B, instr: Instr::XAA, addr_mode: AddrMode::IMM, cycles: 2 },
            0x8C => InstrRef { opcode: 0x8C, instr: Instr::STY, addr_mode: AddrMode::ABS, cycles: 4 },
            0x8D => InstrRef { opcode: 0x8D, instr: Instr::STA, addr_mode: AddrMode::ABS, cycles: 4 },
            0x8E => InstrRef { opcode: 0x8E, instr: Instr::STX, addr_mode: AddrMode::ABS, cycles: 4 },
            0x8F => InstrRef { opcode: 0x8F, instr: Instr::SAX, addr_mode: AddrMode::ABS, cycles: 4 },
            0x90 => InstrRef { opcode: 0x90, instr: Instr::BCC, addr_mode: AddrMode::REL, cycles: 2 },
            0x91 => InstrRef { opcode: 0x91, instr: Instr::STA, addr_mode: AddrMode::IDYW, cycles: 6 },
            0x92 => InstrRef { opcode: 0x92, instr: Instr::HLT, addr_mode: AddrMode::IMP, cycles: 2 },
            0x93 => InstrRef { opcode: 0x93, instr: Instr::AHX, addr_mode: AddrMode::OTH, cycles: 6 },
            0x94 => InstrRef { opcode: 0x94, instr: Instr::STY, addr_mode: AddrMode::ZPX, cycles: 4 },
            0x95 => InstrRef { opcode: 0x95, instr: Instr::STA, addr_mode: AddrMode::ZPX, cycles: 4 },
            0x96 => InstrRef { opcode: 0x96, instr: Instr::STX, addr_mode: AddrMode::ZPY, cycles: 4 },
            0x97 => InstrRef { opcode: 0x97, instr: Instr::SAX, addr_mode: AddrMode::ZPY, cycles: 4 },
            0x98 => InstrRef { opcode: 0x98, instr: Instr::TYA, addr_mode: AddrMode::IMP, cycles: 2 },
            0x99 => InstrRef { opcode: 0x99, instr: Instr::STA, addr_mode: AddrMode::ABYW, cycles: 5 },
            0x9A => InstrRef { opcode: 0x9A, instr: Instr::TXS, addr_mode: AddrMode::IMP, cycles: 2 },
            0x9B => InstrRef { opcode: 0x9B, instr: Instr::TAS, addr_mode: AddrMode::OTH, cycles: 5 },
            0x9C => InstrRef { opcode: 0x9C, instr: Instr::SYA, addr_mode: AddrMode::OTH, cycles: 5 },
            0x9D => InstrRef { opcode: 0x9D, instr: Instr::STA, addr_mode: AddrMode::ABXW, cycles: 5 },
            0x9E => InstrRef { opcode: 0x9E, instr: Instr::SXA, addr_mode: AddrMode::OTH, cycles: 5 },
            0x9F => InstrRef { opcode: 0x9F, instr: Instr::SHAA, addr_mode: AddrMode::OTH, cycles: 5 },
            0xA0 => InstrRef { opcode: 0xA0, instr: Instr::LDY, addr_mode: AddrMode::IMM, cycles: 2 },
            0xA1 => InstrRef { opcode: 0xA1, instr: Instr::LDA, addr_mode: AddrMode::IDX, cycles: 6 },
            0xA2 => InstrRef { opcode: 0xA2, instr: Instr::LDX, addr_mode: AddrMode::IMM, cycles: 2 },
            0xA3 => InstrRef { opcode: 0xA3, instr: Instr::LAX, addr_mode: AddrMode::IDX, cycles: 6 },
            0xA4 => InstrRef { opcode: 0xA4, instr: Instr::LDY, addr_mode: AddrMode::ZP0, cycles: 3 },
            0xA5 => InstrRef { opcode: 0xA5, instr: Instr::LDA, addr_mode: AddrMode::ZP0, cycles: 3 },
            0xA6 => InstrRef { opcode: 0xA6, instr: Instr::LDX, addr_mode: AddrMode::ZP0, cycles: 3 },
            0xA7 => InstrRef { opcode: 0xA7, instr: Instr::LAX, addr_mode: AddrMode::ZP0, cycles: 3 },
            0xA8 => InstrRef { opcode: 0xA8, instr: Instr::TAY, addr_mode: AddrMode::IMP, cycles: 2 },
            0xA9 => InstrRef { opcode: 0xA9, instr: Instr::LDA, addr_mode: AddrMode::IMM, cycles: 2 },
            0xAA => InstrRef { opcode: 0xAA, instr: Instr::TAX, addr_mode: AddrMode::IMP, cycles: 2 },
            0xAB => InstrRef { opcode: 0xAB, instr: Instr::ATX, addr_mode: AddrMode::IMM, cycles: 2 },
            0xAC => InstrRef { opcode: 0xAC, instr: Instr::LDY, addr_mode: AddrMode::ABS, cycles: 4 },
            0xAD => InstrRef { opcode: 0xAD, instr: Instr::LDA, addr_mode: AddrMode::ABS, cycles: 4 },
            0xAE => InstrRef { opcode: 0xAE, instr: Instr::LDX, addr_mode: AddrMode::ABS, cycles: 4 },
            0xAF => InstrRef { opcode: 0xAF, instr: Instr::LAX, addr_mode: AddrMode::ABS, cycles: 4 },
            0xB0 => InstrRef { opcode: 0xB0, instr: Instr::BCS, addr_mode: AddrMode::REL, cycles: 2 },
            0xB1 => InstrRef { opcode: 0xB1, instr: Instr::LDA, addr_mode: AddrMode::IDY, cycles: 5 },
            0xB2 => InstrRef { opcode: 0xB2, instr: Instr::HLT, addr_mode: AddrMode::IMP, cycles: 2 },
            0xB3 => InstrRef { opcode: 0xB3, instr: Instr::LAX, addr_mode: AddrMode::IDY, cycles: 5 },
            0xB4 => InstrRef { opcode: 0xB4, instr: Instr::LDY, addr_mode: AddrMode::ZPX, cycles: 4 },
            0xB5 => InstrRef { opcode: 0xB5, instr: Instr::LDA, addr_mode: AddrMode::ZPX, cycles: 4 },
            0xB6 => InstrRef { opcode: 0xB6, instr: Instr::LDX, addr_mode: AddrMode::ZPY, cycles: 4 },
            0xB7 => InstrRef { opcode: 0xB7, instr: Instr::LAX, addr_mode: AddrMode::ZPY, cycles: 4 },
            0xB8 => InstrRef { opcode: 0xB8, instr: Instr::CLV, addr_mode: AddrMode::IMP, cycles: 2 },
            0xB9 => InstrRef { opcode: 0xB9, instr: Instr::LDA, addr_mode: AddrMode::ABY, cycles: 4 },
            0xBA => InstrRef { opcode: 0xBA, instr: Instr::TSX, addr_mode: AddrMode::IMP, cycles: 2 },
            0xBB => InstrRef { opcode: 0xBB, instr: Instr::LAS, addr_mode: AddrMode::ABY, cycles: 4 },
            0xBC => InstrRef { opcode: 0xBC, instr: Instr::LDY, addr_mode: AddrMode::ABX, cycles: 4 },
            0xBD => InstrRef { opcode: 0xBD, instr: Instr::LDA, addr_mode: AddrMode::ABX, cycles: 4 },
            0xBE => InstrRef { opcode: 0xBE, instr: Instr::LDX, addr_mode: AddrMode::ABY, cycles: 4 },
            0xBF => InstrRef { opcode: 0xBF, instr: Instr::LAX, addr_mode: AddrMode::ABY, cycles: 4 },
            0xC0 => InstrRef { opcode: 0xC0, instr: Instr::CPY, addr_mode: AddrMode::IMM, cycles: 2 },
            0xC1 => InstrRef { opcode: 0xC1, instr: Instr::CMP, addr_mode: AddrMode::IDX, cycles: 6 },
            0xC2 => InstrRef { opcode: 0xC2, instr: Instr::NOP, addr_mode: AddrMode::IMM, cycles: 2 },
            0xC3 => InstrRef { opcode: 0xC3, instr: Instr::DCP, addr_mode: AddrMode::IDX, cycles: 8 },
            0xC4 => InstrRef { opcode: 0xC4, instr: Instr::CPY, addr_mode: AddrMode::ZP0, cycles: 3 },
            0xC5 => InstrRef { opcode: 0xC5, instr: Instr::CMP, addr_mode: AddrMode::ZP0, cycles: 3 },
            0xC6 => InstrRef { opcode: 0xC6, instr: Instr::DEC, addr_mode: AddrMode::ZP0, cycles: 5 },
            0xC7 => InstrRef { opcode: 0xC7, instr: Instr::DCP, addr_mode: AddrMode::ZP0, cycles: 5 },
            0xC8 => InstrRef { opcode: 0xC8, instr: Instr::INY, addr_mode: AddrMode::IMP, cycles: 2 },
            0xC9 => InstrRef { opcode: 0xC9, instr: Instr::CMP, addr_mode: AddrMode::IMM, cycles: 2 },
            0xCA => InstrRef { opcode: 0xCA, instr: Instr::DEX, addr_mode: AddrMode::IMP, cycles: 2 },
            0xCB => InstrRef { opcode: 0xCB, instr: Instr::AXS, addr_mode: AddrMode::IMM, cycles: 2 },
            0xCC => InstrRef { opcode: 0xCC, instr: Instr::CPY, addr_mode: AddrMode::ABS, cycles: 4 },
            0xCD => InstrRef { opcode: 0xCD, instr: Instr::CMP, addr_mode: AddrMode::ABS, cycles: 4 },
            0xCE => InstrRef { opcode: 0xCE, instr: Instr::DEC, addr_mode: AddrMode::ABS, cycles: 6 },
            0xCF => InstrRef { opcode: 0xCF, instr: Instr::DCP, addr_mode: AddrMode::ABS, cycles: 6 },
            0xD0 => InstrRef { opcode: 0xD0, instr: Instr::BNE, addr_mode: AddrMode::REL, cycles: 2 },
            0xD1 => InstrRef { opcode: 0xD1, instr: Instr::CMP, addr_mode: AddrMode::IDY, cycles: 5 },
            0xD2 => InstrRef { opcode: 0xD2, instr: Instr::HLT, addr_mode: AddrMode::IMP, cycles: 2 },
            0xD3 => InstrRef { opcode: 0xD3, instr: Instr::DCP, addr_mode: AddrMode::IDYW, cycles: 8 },
            0xD4 => InstrRef { opcode: 0xD4, instr: Instr::NOP, addr_mode: AddrMode::ZPX, cycles: 4 },
            0xD5 => InstrRef { opcode: 0xD5, instr: Instr::CMP, addr_mode: AddrMode::ZPX, cycles: 4 },
            0xD6 => InstrRef { opcode: 0xD6, instr: Instr::DEC, addr_mode: AddrMode::ZPX, cycles: 6 },
            0xD7 => InstrRef { opcode: 0xD7, instr: Instr::DCP, addr_mode: AddrMode::ZPX, cycles: 6 },
            0xD8 => InstrRef { opcode: 0xD8, instr: Instr::CLD, addr_mode: AddrMode::IMP, cycles: 2 },
            0xD9 => InstrRef { opcode: 0xD9, instr: Instr::CMP, addr_mode: AddrMode::ABY, cycles: 4 },
            0xDA => InstrRef { opcode: 0xDA, instr: Instr::NOP, addr_mode: AddrMode::IMP, cycles: 2 },
            0xDB => InstrRef { opcode: 0xDB, instr: Instr::DCP, addr_mode: AddrMode::ABYW, cycles: 7 },
            0xDC => InstrRef { opcode: 0xDC, instr: Instr::NOP, addr_mode: AddrMode::ABX, cycles: 4 },
            0xDD => InstrRef { opcode: 0xDD, instr: Instr::CMP, addr_mode: AddrMode::ABX, cycles: 4 },
            0xDE => InstrRef { opcode: 0xDE, instr: Instr::DEC, addr_mode: AddrMode::ABXW, cycles: 7 },
            0xDF => InstrRef { opcode: 0xDF, instr: Instr::DCP, addr_mode: AddrMode::ABXW, cycles: 7 },
            0xE0 => InstrRef { opcode: 0xE0, instr: Instr::CPX, addr_mode: AddrMode::IMM, cycles: 2 },
            0xE1 => InstrRef { opcode: 0xE1, instr: Instr::SBC, addr_mode: AddrMode::IDX, cycles: 6 },
            0xE2 => InstrRef { opcode: 0xE2, instr: Instr::NOP, addr_mode: AddrMode::IMM, cycles: 2 },
            0xE3 => InstrRef { opcode: 0xE3, instr: Instr::ISB, addr_mode: AddrMode::IDX, cycles: 8 },
            0xE4 => InstrRef { opcode: 0xE4, instr: Instr::CPX, addr_mode: AddrMode::ZP0, cycles: 3 },
            0xE5 => InstrRef { opcode: 0xE5, instr: Instr::SBC, addr_mode: AddrMode::ZP0, cycles: 3 },
            0xE6 => InstrRef { opcode: 0xE6, instr: Instr::INC, addr_mode: AddrMode::ZP0, cycles: 5 },
            0xE7 => InstrRef { opcode: 0xE7, instr: Instr::ISB, addr_mode: AddrMode::ZP0, cycles: 5 },
            0xE8 => InstrRef { opcode: 0xE8, instr: Instr::INX, addr_mode: AddrMode::IMP, cycles: 2 },
            0xE9 => InstrRef { opcode: 0xE9, instr: Instr::SBC, addr_mode: AddrMode::IMM, cycles: 2 },
            0xEA => InstrRef { opcode: 0xEA, instr: Instr::NOP, addr_mode: AddrMode::IMP, cycles: 2 },
            0xEB => InstrRef { opcode: 0xEB, instr: Instr::SBC, addr_mode: AddrMode::IMM, cycles: 2 },
            0xEC => InstrRef { opcode: 0xEC, instr: Instr::CPX, addr_mode: AddrMode::ABS, cycles: 4 },
            0xED => InstrRef { opcode: 0xED, instr: Instr::SBC, addr_mode: AddrMode::ABS, cycles: 4 },
            0xEE => InstrRef { opcode: 0xEE, instr: Instr::INC, addr_mode: AddrMode::ABS, cycles: 6 },
            0xEF => InstrRef { opcode: 0xEF, instr: Instr::ISB, addr_mode: AddrMode::ABS, cycles: 6 },
            0xF0 => InstrRef { opcode: 0xF0, instr: Instr::BEQ, addr_mode: AddrMode::REL, cycles: 2 },
            0xF1 => InstrRef { opcode: 0xF1, instr: Instr::SBC, addr_mode: AddrMode::IDY, cycles: 5 },
            0xF2 => InstrRef { opcode: 0xF2, instr: Instr::HLT, addr_mode: AddrMode::IMP, cycles: 2 },
            0xF3 => InstrRef { opcode: 0xF3, instr: Instr::ISB, addr_mode: AddrMode::IDYW, cycles: 8 },
            0xF4 => InstrRef { opcode: 0xF4, instr: Instr::NOP, addr_mode: AddrMode::ZPX, cycles: 4 },
            0xF5 => InstrRef { opcode: 0xF5, instr: Instr::SBC, addr_mode: AddrMode::ZPX, cycles: 4 },
            0xF6 => InstrRef { opcode: 0xF6, instr: Instr::INC, addr_mode: AddrMode::ZPX, cycles: 6 },
            0xF7 => InstrRef { opcode: 0xF7, instr: Instr::ISB, addr_mode: AddrMode::ZPX, cycles: 6 },
            0xF8 => InstrRef { opcode: 0xF8, instr: Instr::SED, addr_mode: AddrMode::IMP, cycles: 2 },
            0xF9 => InstrRef { opcode: 0xF9, instr: Instr::SBC, addr_mode: AddrMode::ABY, cycles: 4 },
            0xFA => InstrRef { opcode: 0xFA, instr: Instr::NOP, addr_mode: AddrMode::IMP, cycles: 2 },
            0xFB => InstrRef { opcode: 0xFB, instr: Instr::ISB, addr_mode: AddrMode::ABYW, cycles: 7 },
            0xFC => InstrRef { opcode: 0xFC, instr: Instr::NOP, addr_mode: AddrMode::ABX, cycles: 4 },
            0xFD => InstrRef { opcode: 0xFD, instr: Instr::SBC, addr_mode: AddrMode::ABX, cycles: 4 },
            0xFE => InstrRef { opcode: 0xFE, instr: Instr::INC, addr_mode: AddrMode::ABXW, cycles: 7 },
            _ => InstrRef { opcode: 0xFF, instr: Instr::ISB, addr_mode: AddrMode::ABXW, cycles: 7 },
        }
    }
}
/// The status byte an interrupt pushes: U set and B clear.
pub open spec fn interrupt_status(status: u8) -> u8 {
    (status | Status::U) & !Status::B
}

/// The state after taking an interrupt: two dummy reads, PC and status pushed, interrupts
/// disabled, then PC loaded from the NMI vector if NMI is asserted (which it acknowledges) and
/// from the IRQ vector otherwise.
pub open spec fn interrupt_effect(s: CpuView) -> CpuView {
    let pushed = s.tick().tick().pushed_word(s.pc).pushed(interrupt_status(s.status)).with_flag(Status::I, true);
    if s.irq_flags & IrqFlags::NMI == IrqFlags::NMI {
        let acked = CpuView { irq_flags: pushed.irq_flags & !IrqFlags::NMI, ..pushed };
        CpuView { pc: acked.word_at(Cpu::NMI_VECTOR), ..acked.tick().tick() }
    } else {
        CpuView { pc: pushed.word_at(Cpu::IRQ_VECTOR), ..pushed.tick().tick() }
    }
}

/// Exclusive-or, bit by bit: a bit of `a ^ b` is set exactly when it is set in just one of
/// the two, and taking the same `b` away again gives `a` back.
proof fn lemma_exclusive_or_bits(a: u8, b: u8)
    by (bit_vector)
    ensures
        (a ^ b) ^ b == a,
        forall|i: u8| i < 8 ==> ((((a ^ b) >> i) & 1 == 1) <==> (((a >> i) & 1 == 1) != ((b >> i) & 1 == 1))),
{
}

/// EOR leaves in the accumulator the exclusive-or of the old accumulator and the operand value:
/// each bit is set exactly when it was set in just one of the two, so EOR with the same value
/// again gives the old accumulator back.
pub proof fn lemma_eor_is_exclusive_or(s: CpuView)
    ensures
        forall|i: u8| i < 8 ==> ((((spec_eor(s).acc >> i) & 1 == 1)
            <==> (((s.acc >> i) & 1 == 1) != ((s.operand_value() >> i) & 1 == 1)))),
        spec_eor(s).acc ^ s.operand_value() == s.acc,
{
    lemma_exclusive_or_bits(s.acc, s.operand_value());
}

/// Taking an interrupt loads PC from the vector at the top of memory: the NMI vector, the
/// little-endian word in bytes `$FFFA` and `$FFFB`, while an NMI is latched, and otherwise the
/// IRQ vector in bytes `$FFFE` and `$FFFF`. Pushing the return address and the status onto the
/// stack does not disturb either vector.
pub proof fn lemma_interrupt_takes_its_vector(s: CpuView)
    requires
        s.mem.len() == 0x10000,
    ensures
        s.irq_flags & IrqFlags::NMI != IrqFlags::NMI ==> interrupt_effect(s).pc == le_word(s.mem[0xFFFE], s.mem[0xFFFF]),
        s.irq_flags & IrqFlags::NMI == IrqFlags::NMI ==> interrupt_effect(s).pc == le_word(s.mem[0xFFFA], s.mem[0xFFFB]),
{
    let t = s.tick().tick();
    let p1 = t.pushed((s.pc / 256) as u8);
    let p2 = p1.pushed((s.pc % 256) as u8);
    let p3 = p2.pushed(interrupt_status(s.status));
    assert(t.pushed_word(s.pc) == p2);
    assert(stack_addr(t.sp) < 0x200 && stack_addr(p1.sp) < 0x200 && stack_addr(p2.sp) < 0x200);
    assert(mirrored(stack_addr(t.sp)) == stack_addr(t.sp));
    assert(mirrored(stack_addr(p1.sp)) == stack_addr(p1.sp));
    assert(mirrored(stack_addr(p2.sp)) == stack_addr(p2.sp));
    assert(p3.mem[0xFFFE] == s.mem[0xFFFE] && p3.mem[0xFFFF] == s.mem[0xFFFF]);
    assert(p3.mem[0xFFFA] == s.mem[0xFFFA] && p3.mem[0xFFFB] == s.mem[0xFFFB]);
    assert(mirrored(0xFFFEu16) == 0xFFFE && mirrored(0xFFFFu16) == 0xFFFF);
    assert(mirrored(0xFFFAu16) == 0xFFFA && mirrored(0xFFFBu16) == 0xFFFB);
    assert(0xFFFEu16.wrapping_add(1) == 0xFFFF && 0xFFFAu16.wrapping_add(1) == 0xFFFB);
}

/// The interrupt flags after one poll of the lines: a requested DMA halts the CPU, the previous
/// NMI and IRQ decisions are kept, an NMI is latched on the line's rising edge, and an IRQ runs
/// when the line is asserted and interrupts are enabled.
pub open spec fn polled_flags(flags: u8, status: u8, nmi_pending: bool, irq_pending: bool, dma_pending: bool) -> u8 {
    let f0 = if dma_pending { flags | (IrqFlags::DMA_DMC | IrqFlags::DMA_HALT | IrqFlags::DMA_DUMMY_READ) } else { flags };
    let f1 = set_bits(f0, IrqFlags::PREV_NMI, f0 & IrqFlags::NMI == IrqFlags::NMI);
    let f2 = if f1 & IrqFlags::PREV_NMI_PENDING != IrqFlags::PREV_NMI_PENDING && nmi_pending { f1 | IrqFlags::NMI } else { f1 };
    let f3 = set_bits(f2, IrqFlags::PREV_NMI_PENDING, nmi_pending);
    let f4 = set_bits(f3, IrqFlags::PREV_RUN_IRQ, f3 & IrqFlags::RUN_IRQ == IrqFlags::RUN_IRQ);
    set_bits(f4, IrqFlags::RUN_IRQ, irq_pending && status & Status::I == 0)
}

/// What one poll of the interrupt lines decides: an NMI is latched only on the cycle its line
/// rises, so a line held high asks for one NMI and a line that stays low for none; the previous
/// NMI latch is kept for the instruction that ends next; and an IRQ is level-triggered, running
/// while its line is asserted and interrupts are enabled, one poll late.
pub proof fn lemma_nmi_is_edge_triggered_and_irq_level_triggered(
    flags: u8,
    status: u8,
    nmi_pending: bool,
    irq_pending: bool,
    dma_pending: bool,
)
    by (bit_vector)
    ensures
        ({
            let p = polled_flags(flags, status, nmi_pending, irq_pending, dma_pending);
            &&& (flags & IrqFlags::PREV_NMI_PENDING != IrqFlags::PREV_NMI_PENDING && nmi_pending)
                ==> p & IrqFlags::NMI == IrqFlags::NMI
            &&& (flags & IrqFlags::PREV_NMI_PENDING == IrqFlags::PREV_NMI_PENDING || !nmi_pending)
                ==> (p & IrqFlags::NMI == IrqFlags::NMI <==> flags & IrqFlags::NMI == IrqFlags::NMI)
            &&& (p & IrqFlags::PREV_NMI_PENDING == IrqFlags::PREV_NMI_PENDING <==> nmi_pending)
            &&& (p & IrqFlags::PREV_NMI == IrqFlags::PREV_NMI <==> flags & IrqFlags::NMI == IrqFlags::NMI)
            &&& (p & IrqFlags::RUN_IRQ == IrqFlags::RUN_IRQ <==> (irq_pending && status & Status::I == 0))
            &&& (p & IrqFlags::PREV_RUN_IRQ == IrqFlags::PREV_RUN_IRQ <==> flags & IrqFlags::RUN_IRQ == IrqFlags::RUN_IRQ)
        }),
{
}

/// The state after running the instruction at PC: the opcode fetch, the operand fetch its
/// addressing mode makes, the operation, and then an interrupt if one was decided on the cycle
/// before.
pub open spec fn instr_effect(s: CpuView) -> CpuView {
    let op = op_table(s.at(s.pc));
    let decoded = CpuView { pc: s.pc.wrapping_add(1), addr_mode: op.addr_mode, ..s.tick() };
    let (after_fetch, operand) = fetched(decoded);
    let ran = operation_effect(op.f, CpuView { operand, ..after_fetch });
    if ran.irq_flags & (IrqFlags::PREV_RUN_IRQ | IrqFlags::PREV_NMI) != 0 { interrupt_effect(ran) } else { ran }
}

/// `bits` with `flag` set when `on` and cleared otherwise.
fn with_bits(bits: u8, flag: u8, on: bool) -> (r: u8)
    ensures
        r == set_bits(bits, flag, on),
{
    if on { bits | flag } else { bits & !flag }
}

impl Cpu {
    /// Takes an interrupt: pushes PC and the status (U set, B clear), disables interrupts, and
    /// jumps through the NMI vector if NMI is asserted, acknowledging it, else the IRQ vector.
    pub fn irq(&mut self)
        requires
            old(self).wf(),
        ensures
            final(self).wf(),
            final(self)@ == interrupt_effect(old(self)@),
    {
        let pc = self.pc;
        self.read(pc);
        self.read(pc);
        self.push_word(pc);
        let status = (self.status.bits() | Status::U) & !Status::B;
        let nmi = self.irq_flags.contains(IrqFlags::NMI);
        self.push_byte(status);
        self.status.set(Status::I, true);
        if nmi {
            self.clear_irq_flags(IrqFlags::NMI);
            let target = self.read_word(Cpu::NMI_VECTOR);
            self.pc = target;
        } else {
            let target = self.read_word(Cpu::IRQ_VECTOR);
            self.pc = target;
        }
    }

    /// Polls the interrupt lines at the end of a cycle: the NMI line from the PPU, the IRQ line
    /// from the APU and the board, and whether either asks for a DMA.
    pub fn handle_interrupts(&mut self, nmi_pending: bool, irq_pending: bool, dma_pending: bool)
        ensures
            final(self)@ == (CpuView {
                irq_flags: polled_flags(old(self)@.irq_flags, old(self)@.status, nmi_pending, irq_pending, dma_pending),
                ..old(self)@
            }),
            final(self).mem@ == old(self).mem@,
    {
        let mut flags = self.irq_flags.bits;
        if dma_pending {
            flags = flags | (IrqFlags::DMA_DMC | IrqFlags::DMA_HALT | IrqFlags::DMA_DUMMY_READ);
        }
        flags = with_bits(flags, IrqFlags::PREV_NMI, flags & IrqFlags::NMI == IrqFlags::NMI);
        let prev_nmi_pending = flags & IrqFlags::PREV_NMI_PENDING == IrqFlags::PREV_NMI_PENDING;
        if !prev_nmi_pending && nmi_pending {
            flags = flags | IrqFlags::NMI;
        }
        flags = with_bits(flags, IrqFlags::PREV_NMI_PENDING, nmi_pending);
        flags = with_bits(flags, IrqFlags::PREV_RUN_IRQ, flags & IrqFlags::RUN_IRQ == IrqFlags::RUN_IRQ);
        let run_irq = irq_pending && self.status.bits() & Status::I == 0;
        flags = with_bits(flags, IrqFlags::RUN_IRQ, run_irq);
        self.irq_flags = IrqFlags { bits: flags };
    }

    /// Peeks at the instruction at PC.
    pub fn next_instr(&self) -> (r: InstrRef)
        requires
            self.wf(),
        ensures
            r == instr_ref_table(self@.at(self@.pc)),
    {
        Cpu::instr_ref(self.peek(self.pc))
    }

    /// Runs one instruction: fetches the opcode and the operand, runs the operation, then takes
    /// an interrupt if one was decided on the cycle before.
    pub fn clock_instr(&mut self)
        requires
            old(self).wf(),
        ensures
            final(self).wf(),
            final(self)@ == instr_effect(old(self)@),
    {
        let opcode = self.fetch_byte();
        let op = Cpu::op(opcode);
        self.addr_mode = op.addr_mode();
        let operand = self.fetch_operand();
        self.operand = operand;
        op.run(self);
        if self.irq_flags.bits & (IrqFlags::PREV_RUN_IRQ | IrqFlags::PREV_NMI) != 0 {
            self.irq();
        }
    }
}

} // verus!
