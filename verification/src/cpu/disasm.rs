//! Disassembly: one instruction read back from memory, split into the parts a debugger view
//! tints and aligns separately.
use vstd::prelude::*;

use crate::common::{digits, padded, push_char, push_number};
use crate::cpu::{Cpu, CpuView, le_word};
use crate::cpu::instr::{AddrMode, Instr, InstrRef, Operation, branch_target, instr_ref_table, instr_text, op_table, operation_effect, fetched};

verus! {

/// A save state that does not belong to the loaded cart.
#[derive(Debug, Copy, Clone, PartialEq, Eq)]
pub struct StateMismatch;

/// What an operand comes to when it is followed.
#[derive(Debug, Copy, Clone, PartialEq, Eq, Structural)]
pub enum Resolved {
    /// The byte the instruction reads or writes.
    Byte(u8),
    /// The address an indirect jump reads out of the one it names.
    Word(u16),
}

/// One disassembled instruction.
#[derive(Debug, Clone, PartialEq, Eq)]
pub struct Disasm {
    /// Address the instruction was read from.
    pub addr: u16,
    /// Opcode, mnemonic, addressing mode and cycle count.
    pub instr: InstrRef,
    /// The bytes after the opcode; [`Disasm::operands`] gives the ones that belong to the
    /// instruction.
    pub bytes: [u8; 2],
    /// The operand as written: `#$42`, `$1234,X`, `($10),Y`. Empty for implied and accumulator
    /// modes, which name no operand.
    pub operand: String,
    /// The address the operand lands on once a register is added, for the modes that compute
    /// one.
    pub effective: Option<u16>,
    /// What sits at the address the operand reaches, on the console as it stands.
    pub value: Option<Resolved>,
}

/// Whether `ir` is the unofficial store that reaches its target through a zero-page pointer,
/// as `(zp),Y` does, though it shares the catch-all mode with the absolute ones.
pub open spec fn is_indirect_store(ir: InstrRef) -> bool {
    ir.addr_mode == AddrMode::OTH && ir.instr == Instr::AHX
}

/// How many bytes follow the opcode of `ir`, as the disassembler reads them: as many as executing
/// it fetches.
pub open spec fn operand_len(ir: InstrRef) -> u16 {
    match ir.addr_mode {
        AddrMode::ACC | AddrMode::IMP => 0,
        AddrMode::IMM | AddrMode::REL | AddrMode::ZP0 | AddrMode::ZPX | AddrMode::ZPY | AddrMode::IDX
        | AddrMode::IDY | AddrMode::IDYW => 1,
        _ => if is_indirect_store(ir) { 1 } else { 2 },
    }
}

/// `n` in two uppercase hex digits.
pub open spec fn hex2(n: u8) -> Seq<char> {
    padded(digits(n as nat, 16, true), 2, '0')
}

/// `n` in four uppercase hex digits.
pub open spec fn hex4(n: u16) -> Seq<char> {
    padded(digits(n as nat, 16, true), 4, '0')
}

/// The first operand byte of the instruction at `pc`.
pub open spec fn byte1(cpu: CpuView, pc: u16) -> u8 {
    cpu.at(pc.wrapping_add(1))
}

/// The word the two operand bytes of the instruction at `pc` spell.
pub open spec fn word1(cpu: CpuView, pc: u16) -> u16 {
    le_word(cpu.at(pc.wrapping_add(1)), cpu.at(pc.wrapping_add(2)))
}

/// Whether an absolute-indexed or catch-all instruction indexes by X rather than Y.
pub open spec fn indexed_by_x(ir: InstrRef) -> bool {
    ir.addr_mode == AddrMode::ABX || ir.addr_mode == AddrMode::ABXW || ir.instr == Instr::SYA
}

/// The base address an indirect-indexed operand `b` points at.
pub open spec fn zp_word(cpu: CpuView, b: u8) -> u16 {
    le_word(cpu.at(b as u16), cpu.at(b.wrapping_add(1) as u16))
}

/// Where an indirect jump through `base` goes: the 6502 wraps the pointer's high byte within
/// the page.
pub open spec fn indirect_target(cpu: CpuView, base: u16) -> u16 {
    if base & 0xFF == 0xFF { le_word(cpu.at(base), cpu.at((base - 0xFF) as u16)) } else { cpu.word_at(base) }
}

/// The operand of the instruction at `pc`, as written.
pub open spec fn operand_text(cpu: CpuView, pc: u16, ir: InstrRef) -> Seq<char> {
    let b = byte1(cpu, pc);
    let w = word1(cpu, pc);
    match ir.addr_mode {
        AddrMode::ACC | AddrMode::IMP => Seq::empty(),
        AddrMode::IMM => seq!['#', '$'] + hex2(b),
        AddrMode::REL => seq!['$'] + hex4(branch_target(pc.wrapping_add(2), b)),
        AddrMode::ZP0 => seq!['$'] + hex2(b),
        AddrMode::ZPX => seq!['$'] + hex2(b) + seq![',', 'X'],
        AddrMode::ZPY => seq!['$'] + hex2(b) + seq![',', 'Y'],
        AddrMode::IND => seq!['(', '$'] + hex4(w) + seq![')'],
        AddrMode::IDX => seq!['(', '$'] + hex2(b) + seq![',', 'X', ')'],
        AddrMode::IDY | AddrMode::IDYW => seq!['(', '$'] + hex2(b) + seq![')', ',', 'Y'],
        AddrMode::ABS => seq!['$'] + hex4(w),
        _ => if ir.addr_mode == AddrMode::OTH && ir.instr == Instr::JSR {
            seq!['$'] + hex4(w)
        } else if is_indirect_store(ir) {
            seq!['(', '$'] + hex2(b) + seq![')', ',', 'Y']
        } else {
            seq!['$'] + hex4(w) + seq![',', if indexed_by_x(ir) { 'X' } else { 'Y' }]
        },
    }
}

/// The address the operand of the instruction at `pc` lands on once a register is added.
pub open spec fn effective_addr(cpu: CpuView, pc: u16, ir: InstrRef) -> Option<u16> {
    let b = byte1(cpu, pc);
    let w = word1(cpu, pc);
    match ir.addr_mode {
        AddrMode::ZPX => Some(b.wrapping_add(cpu.x) as u16),
        AddrMode::ZPY => Some(b.wrapping_add(cpu.y) as u16),
        AddrMode::IDX => Some(zp_word(cpu, b.wrapping_add(cpu.x))),
        AddrMode::IDY | AddrMode::IDYW => Some(zp_word(cpu, b).wrapping_add(cpu.y as u16)),
        AddrMode::ABX | AddrMode::ABXW | AddrMode::ABY | AddrMode::ABYW | AddrMode::OTH =>
            if ir.addr_mode == AddrMode::OTH && ir.instr == Instr::JSR {
                None
            } else if is_indirect_store(ir) {
                Some(zp_word(cpu, b).wrapping_add(cpu.y as u16))
            } else {
                Some(w.wrapping_add(if indexed_by_x(ir) { cpu.x as u16 } else { cpu.y as u16 }))
            },
        _ => None,
    }
}

/// What sits where the operand of the instruction at `pc` reaches.
pub open spec fn resolved_value(cpu: CpuView, pc: u16, ir: InstrRef) -> Option<Resolved> {
    let b = byte1(cpu, pc);
    let w = word1(cpu, pc);
    match ir.addr_mode {
        AddrMode::ZP0 => Some(Resolved::Byte(cpu.at(b as u16))),
        AddrMode::IND => Some(Resolved::Word(indirect_target(cpu, w))),
        AddrMode::ABS => if ir.instr != Instr::JMP { Some(Resolved::Byte(cpu.at(w))) } else { None },
        _ => match effective_addr(cpu, pc, ir) {
            Some(addr) => Some(Resolved::Byte(cpu.at(addr))),
            None => None,
        },
    }
}

/// The operand bytes that were read, the rest left as they were.
pub open spec fn bytes_read(cpu: CpuView, pc: u16, ir: InstrRef, old_bytes: Seq<u8>) -> Seq<u8> {
    let n = operand_len(ir);
    if n == 0 {
        old_bytes
    } else if n == 1 {
        old_bytes.update(0, byte1(cpu, pc))
    } else {
        seq![byte1(cpu, pc), cpu.at(pc.wrapping_add(2))]
    }
}

impl Disasm {
    /// Columns the operand bytes are padded to, which `$10 $00 ` fills at its widest.
    pub const BYTE_COLUMNS: usize = 8;

    /// The bytes after the opcode that belong to the instruction, zero to two of them.
    pub fn operands(&self) -> (v: Vec<u8>)
        ensures
            v@ == self.bytes@.take(operand_len(self.instr) as int),
    {
        let n = self.len() - 1;
        let mut v: Vec<u8> = Vec::new();
        if n >= 1 {
            v.push(self.bytes[0]);
        }
        if n >= 2 {
            v.push(self.bytes[1]);
        }
        assert(v@ =~= self.bytes@.take(operand_len(self.instr) as int));
        v
    }

    /// How many bytes the instruction occupies, opcode included.
    pub fn len(&self) -> (n: u16)
        ensures
            n == 1 + operand_len(self.instr),
    {
        match self.instr.addr_mode {
            AddrMode::ACC | AddrMode::IMP => 1,
            AddrMode::IMM | AddrMode::REL | AddrMode::ZP0 | AddrMode::ZPX | AddrMode::ZPY | AddrMode::IDX
            | AddrMode::IDY | AddrMode::IDYW => 2,
            _ => if self.instr.addr_mode == AddrMode::OTH && self.instr.instr == Instr::AHX { 2 } else { 3 },
        }
    }

    /// [`Disasm::effective`] as either renderer writes it: two hex digits in zero page and four
    /// everywhere else.
    pub fn effective_text(&self) -> (t: Option<String>)
        ensures
            match effective_str(*self) {
                None => t is None,
                Some(e) => t matches Some(s) && s@ == e,
            },
    {
        let effective = match self.effective {
            Some(e) => e,
            None => return None,
        };
        let mut s = String::new();
        push_char(&mut s, '$');
        let width: usize = match self.instr.addr_mode {
            AddrMode::ZPX | AddrMode::ZPY => 2,
            _ => 4,
        };
        push_number(&mut s, effective as u64, 16, true, width);
        Some(s)
    }
}

/// [`Disasm::effective`] as the renderers write it: two hex digits in zero page and four
/// everywhere else.
pub open spec fn effective_str(d: Disasm) -> Option<Seq<char>> {
    match d.effective {
        None => None,
        Some(e) => Some(if d.instr.addr_mode == AddrMode::ZPX || d.instr.addr_mode == AddrMode::ZPY {
            seq!['$'] + padded(digits(e as nat, 16, true), 2, '0')
        } else {
            seq!['$'] + hex4(e)
        }),
    }
}

/// A resolved operand as the trace writes it: `#$42` for a byte, `$1234` for a word.
pub open spec fn resolved_text(r: Resolved) -> Seq<char> {
    match r {
        Resolved::Byte(b) => seq!['#', '$'] + hex2(b),
        Resolved::Word(w) => seq!['$'] + hex4(w),
    }
}

/// The operand bytes of `d`, each as `$XX ` , padded with spaces to
/// [`Disasm::BYTE_COLUMNS`] so the mnemonic starts in one column.
pub open spec fn byte_columns(d: Disasm) -> Seq<char> {
    let n = operand_len(d.instr);
    let b0 = seq!['$'] + hex2(d.bytes[0]) + seq![' '];
    let b1 = seq!['$'] + hex2(d.bytes[1]) + seq![' '];
    if n == 0 {
        Seq::new(8, |i: int| ' ')
    } else if n == 1 {
        b0 + Seq::new(4, |i: int| ' ')
    } else {
        b0 + b1
    }
}

/// The start of a trace line: address, opcode, operand bytes and mnemonic.
pub open spec fn disasm_head(d: Disasm) -> Seq<char> {
    seq!['$'] + hex4(d.addr) + seq![' ', '$'] + hex2(d.instr.opcode) + seq![' '] + byte_columns(d) + instr_text(d.instr)
}

/// The operand of a trace line, after a space; nothing where the mode names none.
pub open spec fn operand_part(d: Disasm) -> Seq<char> {
    if d.operand@.len() > 0 { seq![' '] + d.operand@ } else { Seq::empty() }
}

/// Where the operand lands, as ` @ $addr`, for the modes that compute an address.
pub open spec fn effective_part(d: Disasm) -> Seq<char> {
    match effective_str(d) {
        Some(e) => seq![' ', '@', ' '] + e,
        None => Seq::empty(),
    }
}

/// What the operand finds, as ` = #$val` or ` = $addr`.
pub open spec fn value_part(d: Disasm) -> Seq<char> {
    match d.value {
        Some(v) => seq![' ', '=', ' '] + resolved_text(v),
        None => Seq::empty(),
    }
}

/// One disassembled instruction as the trace line reads, which is compared against other
/// emulators' logs: address, opcode, operand bytes, mnemonic, operand, then where it lands and
/// what it finds there.
pub open spec fn disasm_text(d: Disasm) -> Seq<char> {
    disasm_head(d) + operand_part(d) + effective_part(d) + value_part(d)
}

impl Resolved {
    /// The operand as the trace writes it.
    pub fn text(&self) -> (s: String)
        ensures
            s@ == resolved_text(*self),
    {
        let mut s = String::new();
        match self {
            Resolved::Byte(b) => {
                push_char(&mut s, '#');
                push_char(&mut s, '$');
                push_number(&mut s, *b as u64, 16, true, 2);
            },
            Resolved::Word(w) => {
                push_char(&mut s, '$');
                push_number(&mut s, *w as u64, 16, true, 4);
            },
        }
        s
    }
}

impl Disasm {
    /// Appends the operand bytes, padded to [`Disasm::BYTE_COLUMNS`].
    fn push_byte_columns(&self, s: &mut String)
        ensures
            final(s)@ == old(s)@ + byte_columns(*self),
    {
        let ghost start = s@;
        let n = self.len() - 1;
        let mut columns: usize = 0;
        if n >= 1 {
            push_char(s, '$');
            push_number(s, self.bytes[0] as u64, 16, true, 2);
            push_char(s, ' ');
            columns = 4;
        }
        if n >= 2 {
            push_char(s, '$');
            push_number(s, self.bytes[1] as u64, 16, true, 2);
            push_char(s, ' ');
            columns = 8;
        }
        let ghost filled = s@;
        while columns < Self::BYTE_COLUMNS
            invariant
                n <= 2,
                4 * n <= columns <= 8,
                s@ == filled + Seq::new((columns - 4 * n) as nat, |i: int| ' '),
            decreases 8 - columns,
        {
            push_char(s, ' ');
            proof {
                assert(s@ =~= filled + Seq::new((columns + 1 - 4 * n) as nat, |i: int| ' '));
            }
            columns = columns + 1;
        }
        proof {
            assert(s@ =~= start + byte_columns(*self));
        }
    }

    /// Appends the start of the trace line: address, opcode, operand bytes and mnemonic.
    fn push_head(&self, s: &mut String)
        ensures
            final(s)@ == old(s)@ + disasm_head(*self),
    {
        let ghost start = s@;
        push_char(s, '$');
        push_number(s, self.addr as u64, 16, true, 4);
        push_char(s, ' ');
        push_char(s, '$');
        push_number(s, self.instr.opcode as u64, 16, true, 2);
        push_char(s, ' ');
        self.push_byte_columns(s);
        s.append(self.instr.text().as_str());
        assert(s@ =~= start + disasm_head(*self));
    }

    /// Appends the operand, where and what it reaches.
    fn push_tail(&self, s: &mut String)
        ensures
            final(s)@ == old(s)@ + operand_part(*self) + effective_part(*self) + value_part(*self),
    {
        let ghost start = s@;
        if self.operand.as_str().unicode_len() > 0 {
            push_char(s, ' ');
            s.append(self.operand.as_str());
        }
        assert(s@ =~= start + operand_part(*self));
        let ghost with_operand = s@;
        match self.effective_text() {
            Some(e) => {
                push_char(s, ' ');
                push_char(s, '@');
                push_char(s, ' ');
                s.append(e.as_str());
            },
            None => {},
        }
        assert(s@ =~= with_operand + effective_part(*self));
        let ghost with_effective = s@;
        match self.value {
            Some(v) => {
                push_char(s, ' ');
                push_char(s, '=');
                push_char(s, ' ');
                s.append(v.text().as_str());
            },
            None => {},
        }
        assert(s@ =~= with_effective + value_part(*self));
    }

    /// The instruction as one trace line.
    pub fn text(&self) -> (s: String)
        ensures
            s@ == disasm_text(*self),
    {
        let mut s = String::new();
        self.push_head(&mut s);
        self.push_tail(&mut s);
        assert(s@ =~= disasm_text(*self));
        s
    }
}

/// Appends `n` in two uppercase hex digits.
fn push_hex2(s: &mut String, n: u8)
    ensures
        final(s)@ == old(s)@ + hex2(n),
{
    push_number(s, n as u64, 16, true, 2);
}

/// Appends `n` in four uppercase hex digits.
fn push_hex4(s: &mut String, n: u16)
    ensures
        final(s)@ == old(s)@ + hex4(n),
{
    push_number(s, n as u64, 16, true, 4);
}

impl Cpu {
    /// Disassemble the instruction at `pc` into `out`, advancing `pc` past it.
    ///
    /// `out` is reused rather than returned, so a sweep over the address space grows its string
    /// once instead of allocating per instruction. The operand is resolved against the registers
    /// and memory as they stand.
    pub fn disassemble_into(&self, pc: &mut u16, out: &mut Disasm)
        requires
            self.wf(),
        ensures
            ({
                let at = *old(pc);
                let ir = instr_ref_table(self@.at(at));
                &&& final(out).addr == at
                &&& final(out).instr == ir
                &&& final(out).bytes@ == bytes_read(self@, at, ir, old(out).bytes@)
                &&& final(out).operand@ == operand_text(self@, at, ir)
                &&& final(out).effective == effective_addr(self@, at, ir)
                &&& final(out).value == resolved_value(self@, at, ir)
                &&& *final(pc) == at.wrapping_add((1 + operand_len(ir)) as u16)
            }),
    {
        let at = *pc;
        out.addr = at;
        out.operand = String::new();
        out.effective = None;
        out.value = None;
        let opcode = self.peek(at);
        let ir = Cpu::instr_ref(opcode);
        out.instr = ir;
        let b = self.peek(at.wrapping_add(1));
        let b2 = self.peek(at.wrapping_add(2));
        let w = self.peek_word(at.wrapping_add(1));
        proof {
            assert(at.wrapping_add(1).wrapping_add(1) == at.wrapping_add(2));
        }
        let indirect_store = ir.addr_mode == AddrMode::OTH && ir.instr == Instr::AHX;
        let len: u16 = match ir.addr_mode {
            AddrMode::ACC | AddrMode::IMP => 0,
            AddrMode::IMM | AddrMode::REL | AddrMode::ZP0 | AddrMode::ZPX | AddrMode::ZPY | AddrMode::IDX
            | AddrMode::IDY | AddrMode::IDYW => 1,
            _ => if indirect_store { 1 } else { 2 },
        };
        if len == 1 {
            out.bytes = [b, out.bytes[1]];
            proof {
                assert(out.bytes@ =~= old(out).bytes@.update(0, b));
            }
        } else if len == 2 {
            out.bytes = [b, b2];
            proof {
                assert(out.bytes@ =~= seq![b, b2]);
            }
        }
        *pc = at.wrapping_add(1 + len);
        let mut text = String::new();
        match ir.addr_mode {
            AddrMode::ACC | AddrMode::IMP => {},
            AddrMode::IMM => {
                push_char(&mut text, '#');
                push_char(&mut text, '$');
                push_hex2(&mut text, b);
            },
            AddrMode::REL => {
                let next = at.wrapping_add(2);
                let target = if b < 128 { next.wrapping_add(b as u16) } else { next.wrapping_sub(256 - (b as u16)) };
                push_char(&mut text, '$');
                push_hex4(&mut text, target);
            },
            AddrMode::ZP0 => {
                push_char(&mut text, '$');
                push_hex2(&mut text, b);
                out.value = Some(Resolved::Byte(self.peek(b as u16)));
            },
            AddrMode::ZPX => {
                let addr = b.wrapping_add(self.x);
                push_char(&mut text, '$');
                push_hex2(&mut text, b);
                push_char(&mut text, ',');
                push_char(&mut text, 'X');
                out.effective = Some(addr as u16);
                out.value = Some(Resolved::Byte(self.peek(addr as u16)));
            },
            AddrMode::ZPY => {
                let addr = b.wrapping_add(self.y);
                push_char(&mut text, '$');
                push_hex2(&mut text, b);
                push_char(&mut text, ',');
                push_char(&mut text, 'Y');
                out.effective = Some(addr as u16);
                out.value = Some(Resolved::Byte(self.peek(addr as u16)));
            },
            AddrMode::IND => {
                assert((w & 0xFF) == 0xFF ==> w >= 0xFF) by (bit_vector);
                let val = if (w & 0xFF) == 0xFF {
                    let lo = self.peek(w);
                    let hi = self.peek(w - 0xFF);
                    (hi as u16) * 256 + (lo as u16)
                } else {
                    self.peek_word(w)
                };
                push_char(&mut text, '(');
                push_char(&mut text, '$');
                push_hex4(&mut text, w);
                push_char(&mut text, ')');
                out.value = Some(Resolved::Word(val));
            },
            AddrMode::IDX => {
                let zero = b.wrapping_add(self.x);
                let lo = self.peek(zero as u16);
                let hi = self.peek(zero.wrapping_add(1) as u16);
                let addr = (hi as u16) * 256 + (lo as u16);
                push_char(&mut text, '(');
                push_char(&mut text, '$');
                push_hex2(&mut text, b);
                push_char(&mut text, ',');
                push_char(&mut text, 'X');
                push_char(&mut text, ')');
                out.effective = Some(addr);
                out.value = Some(Resolved::Byte(self.peek(addr)));
            },
            AddrMode::IDY | AddrMode::IDYW => {
                let lo = self.peek(b as u16);
                let hi = self.peek(b.wrapping_add(1) as u16);
                let base = (hi as u16) * 256 + (lo as u16);
                let addr = base.wrapping_add(self.y as u16);
                push_char(&mut text, '(');
                push_char(&mut text, '$');
                push_hex2(&mut text, b);
                push_char(&mut text, ')');
                push_char(&mut text, ',');
                push_char(&mut text, 'Y');
                out.effective = Some(addr);
                out.value = Some(Resolved::Byte(self.peek(addr)));
            },
            AddrMode::ABS => {
                push_char(&mut text, '$');
                push_hex4(&mut text, w);
                if ir.instr != Instr::JMP {
                    out.value = Some(Resolved::Byte(self.peek(w)));
                }
            },
            _ => {
                if ir.addr_mode == AddrMode::OTH && ir.instr == Instr::JSR {
                    push_char(&mut text, '$');
                    push_hex4(&mut text, w);
                } else if indirect_store {
                    let lo = self.peek(b as u16);
                    let hi = self.peek(b.wrapping_add(1) as u16);
                    let base = (hi as u16) * 256 + (lo as u16);
                    let addr = base.wrapping_add(self.y as u16);
                    push_char(&mut text, '(');
                    push_char(&mut text, '$');
                    push_hex2(&mut text, b);
                    push_char(&mut text, ')');
                    push_char(&mut text, ',');
                    push_char(&mut text, 'Y');
                    out.effective = Some(addr);
                    out.value = Some(Resolved::Byte(self.peek(addr)));
                } else {
                    let by_x = ir.addr_mode == AddrMode::ABX || ir.addr_mode == AddrMode::ABXW || ir.instr == Instr::SYA;
                    let register = if by_x { self.x } else { self.y };
                    let addr = w.wrapping_add(register as u16);
                    push_char(&mut text, '$');
                    push_hex4(&mut text, w);
                    push_char(&mut text, ',');
                    push_char(&mut text, if by_x { 'X' } else { 'Y' });
                    out.effective = Some(addr);
                    out.value = Some(Resolved::Byte(self.peek(addr)));
                }
            },
        }
        out.operand = text;
        proof {
            assert(out.operand@ =~= operand_text(self@, at, ir));
        }
    }

    /// Disassemble the instruction at `pc`, advancing `pc` past it.
    pub fn disassemble(&self, pc: &mut u16) -> (d: Disasm)
        requires
            self.wf(),
        ensures
            ({
                let at = *old(pc);
                let ir = instr_ref_table(self@.at(at));
                &&& d.addr == at
                &&& d.instr == ir
                &&& d.operand@ == operand_text(self@, at, ir)
                &&& d.effective == effective_addr(self@, at, ir)
                &&& d.value == resolved_value(self@, at, ir)
                &&& *final(pc) == at.wrapping_add((1 + operand_len(ir)) as u16)
            }),
    {
        let mut d = Disasm {
            addr: 0,
            instr: Cpu::instr_ref(0),
            bytes: [0, 0],
            operand: String::new(),
            effective: None,
            value: None,
        };
        self.disassemble_into(pc, &mut d);
        d
    }
}

/// The two opcode tables agree on every opcode's addressing mode.
proof fn lemma_tables_agree(opcode: u8)
    ensures
        op_table(opcode).addr_mode == instr_ref_table(opcode).addr_mode,
{
}

/// The disassembler and the CPU read an instruction the same way: for every instruction whose
/// addressing mode fetches its own operand, executing it leaves PC where disassembling it does,
/// and the address execution works on is the effective address the disassembler reports.
#[verifier::spinoff_prover]
#[verifier::rlimit(40)]
pub proof fn lemma_disassembly_matches_execution(s: CpuView)
    requires
        op_table(s.at(s.pc)).addr_mode != AddrMode::OTH,
    ensures
        ({
            let ir = instr_ref_table(s.at(s.pc));
            let op = op_table(s.at(s.pc));
            let decoded = CpuView { pc: s.pc.wrapping_add(1), addr_mode: op.addr_mode, ..s.tick() };
            &&& fetched(decoded).0.pc == s.pc.wrapping_add((1 + operand_len(ir)) as u16)
            &&& effective_addr(s, s.pc, ir) matches Some(e) ==> fetched(decoded).1 == e
        }),
{
    lemma_tables_agree(s.at(s.pc));
    let pc = s.pc;
    assert(pc.wrapping_add(1).wrapping_add(1) == pc.wrapping_add(2));
    assert(pc.wrapping_add(1).wrapping_add(2) == pc.wrapping_add(3));
}


/// Whether an operation moves PC by rules of its own rather than past its operand: the
/// branches, the jumps and returns, `BRK`, and the jam that never leaves its instruction.
pub open spec fn steers_pc(f: Operation) -> bool {
    match f {
        Operation::Bcc | Operation::Bcs | Operation::Beq | Operation::Bmi | Operation::Bne | Operation::Bpl
        | Operation::Bvc | Operation::Bvs | Operation::Brk | Operation::Hlt | Operation::Jmpa | Operation::Jmpi
        | Operation::Jsr | Operation::Rti | Operation::Rts => true,
        _ => false,
    }
}

/// The unofficial stores fetch their own operand, as the rest of the catch-all mode does.
pub open spec fn fetches_own_operand(f: Operation) -> bool {
    match f {
        Operation::Shaa | Operation::Shaz | Operation::Sxa | Operation::Sya | Operation::Tas => true,
        _ => false,
    }
}

/// An operation that neither steers PC nor fetches its own operand leaves PC where the
/// addressing mode put it.
proof fn lemma_operation_keeps_pc(f: Operation, s: CpuView)
    requires
        !steers_pc(f),
        !fetches_own_operand(f),
    ensures
        operation_effect(f, s).pc == s.pc,
{
}

/// Every instruction that does not steer PC itself takes as many bytes as the disassembler
/// reads: once it has run, and before any interrupt is taken, PC is where disassembling it says
/// the next instruction starts.
pub proof fn lemma_length_matches_execution(s: CpuView)
    requires
        !steers_pc(op_table(s.at(s.pc)).f),
    ensures
        ({
            let ir = instr_ref_table(s.at(s.pc));
            let op = op_table(s.at(s.pc));
            let decoded = CpuView { pc: s.pc.wrapping_add(1), addr_mode: op.addr_mode, ..s.tick() };
            let (after_fetch, operand) = fetched(decoded);
            operation_effect(op.f, CpuView { operand, ..after_fetch }).pc == s.pc.wrapping_add((1 + operand_len(ir)) as u16)
        }),
{
    let opcode = s.at(s.pc);
    let ir = instr_ref_table(opcode);
    let op = op_table(opcode);
    let decoded = CpuView { pc: s.pc.wrapping_add(1), addr_mode: op.addr_mode, ..s.tick() };
    let (after_fetch, operand) = fetched(decoded);
    let pc = s.pc;
    assert(pc.wrapping_add(1).wrapping_add(1) == pc.wrapping_add(2));
    assert(pc.wrapping_add(1).wrapping_add(2) == pc.wrapping_add(3));
    if fetches_own_operand(op.f) {
        assert(op.addr_mode == AddrMode::OTH);
        assert(after_fetch.pc == pc.wrapping_add(1));
    } else {
        lemma_operation_keeps_pc(op.f, CpuView { operand, ..after_fetch });
        if op.addr_mode != AddrMode::OTH {
            lemma_disassembly_matches_execution(s);
        }
    }
}

} // verus!
