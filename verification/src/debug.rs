//! Debugger hooks: the recent program counters, the call stack, what execution has shown each
//! byte of the cartridge to be, and the armed breakpoints.
use vstd::prelude::*;

pub mod expr;

use expr::{Expr, run_ops};
use crate::cpu::{Cpu, CpuView};

verus! {

/// Where entry `i` of a ring of `cap` entries starting at `start` sits.
pub open spec fn ring_index(start: int, i: int, cap: int) -> int {
    if start + i < cap { start + i } else { start + i - cap }
}

/// What a history holding `c`, with room for `cap`, holds after recording `pc`.
pub open spec fn history_after(c: Seq<u16>, cap: nat, pc: u16) -> Seq<u16> {
    if c.len() < cap { c.push(pc) } else { c.drop_first().push(pc) }
}

/// What a history holding `c`, with room for `cap`, holds after recording each of `pcs` in turn.
pub open spec fn history_after_all(c: Seq<u16>, cap: nat, pcs: Seq<u16>) -> Seq<u16>
    decreases pcs.len(),
{
    if pcs.len() == 0 {
        c
    } else {
        history_after(history_after_all(c, cap, pcs.drop_last()), cap, pcs.last())
    }
}

/// A history keeps the most recent of everything recorded, oldest first, up to its capacity:
/// once `pcs` have been recorded onto `c`, it holds the last `cap` of `c + pcs`.
pub proof fn lemma_history_keeps_the_most_recent(c: Seq<u16>, cap: nat, pcs: Seq<u16>)
    requires
        cap >= 1,
        c.len() <= cap,
    ensures
        history_after_all(c, cap, pcs) == (c + pcs).skip(
            if c.len() + pcs.len() > cap { c.len() + pcs.len() - cap } else { 0 },
        ),
    decreases pcs.len(),
{
    let all = c + pcs;
    if pcs.len() == 0 {
        assert(all =~= c);
        assert(all.skip(0) =~= c);
    } else {
        let prev = pcs.drop_last();
        lemma_history_keeps_the_most_recent(c, cap, prev);
        let k = if c.len() + prev.len() > cap { c.len() + prev.len() - cap } else { 0 };
        let before = (c + prev).skip(k);
        assert(c + prev =~= all.drop_last());
        assert(before.len() <= cap);
        if before.len() < cap {
            assert(before.push(pcs.last()) =~= all.skip(k));
        } else {
            assert(before.drop_first().push(pcs.last()) =~= all.skip(k + 1));
        }
    }
}

/// A ring buffer of the program counters most recently executed.
///
/// 6502 instructions are one to three bytes with no alignment, so the stream before an address
/// cannot be recovered by decoding backwards; recording them lets a debugger show the
/// instructions leading up to where it stopped.
#[derive(Debug, Clone)]
pub struct PcHistory {
    entries: Vec<u16>,
    /// Where the next push goes, wrapping at `entries.len()`.
    head: usize,
    /// How many entries have been filled, saturating at `entries.len()`.
    len: usize,
}

impl PcHistory {
    /// How many program counters the history holds at most.
    pub closed spec fn capacity(&self) -> nat {
        self.entries@.len()
    }

    /// The internal invariant: a non-empty ring whose head and fill stay inside it.
    pub closed spec fn wf(&self) -> bool {
        &&& self.entries@.len() >= 1
        &&& self.head < self.entries@.len()
        &&& self.len <= self.entries@.len()
    }

    /// Where the oldest recorded entry sits.
    closed spec fn start(&self) -> int {
        if self.head >= self.len {
            self.head - self.len
        } else {
            self.head + self.entries@.len() - self.len
        }
    }

    /// The recorded program counters, oldest first.
    pub closed spec fn contents(&self) -> Seq<u16> {
        Seq::new(self.len as nat, |i: int| self.entries@[ring_index(self.start(), i, self.entries@.len() as int)])
    }

    /// Create a history holding the last `capacity` program counters (at least one).
    pub fn new(capacity: usize) -> (h: Self)
        ensures
            h.wf(),
            h.capacity() == if capacity == 0 { 1 } else { capacity as nat },
            h.contents() == Seq::<u16>::empty(),
    {
        let cap = if capacity == 0 { 1 } else { capacity };
        let mut entries: Vec<u16> = Vec::new();
        let mut i: usize = 0;
        while i < cap
            invariant
                i <= cap,
                entries@.len() == i,
            decreases cap - i,
        {
            entries.push(0);
            i = i + 1;
        }
        let h = Self { entries, head: 0, len: 0 };
        assert(h.contents() =~= Seq::<u16>::empty());
        h
    }

    /// Record an executed program counter, dropping the oldest once full.
    pub fn push(&mut self, pc: u16)
        requires
            old(self).wf(),
        ensures
            final(self).wf(),
            final(self).capacity() == old(self).capacity(),
            final(self).contents() == history_after(old(self).contents(), old(self).capacity(), pc),
    {
        let ghost before = self.contents();
        let ghost old_start = self.start();
        let cap = self.entries.len();
        self.entries.set(self.head, pc);
        self.head = if self.head + 1 == cap { 0 } else { self.head + 1 };
        if self.len < cap {
            self.len = self.len + 1;
        }
        proof {
            let c = cap as int;
            let after = self.contents();
            if before.len() < c {
                assert(self.start() == old_start);
                assert forall|i: int| 0 <= i < after.len() implies after[i] == before.push(pc)[i] by {
                    if i < before.len() {
                        assert(ring_index(old_start, i, c) != ring_index(old_start, before.len() as int, c));
                    }
                }
                assert(after =~= before.push(pc));
            } else {
                assert forall|i: int| 0 <= i < after.len() implies after[i] == before.drop_first().push(pc)[i] by {
                    if i + 1 < c {
                        assert(ring_index(self.start(), i, c) == ring_index(old_start, i + 1, c));
                        assert(ring_index(old_start, i + 1, c) != old_start);
                    }
                }
                assert(after =~= before.drop_first().push(pc));
            }
        }
    }

    /// The recorded program counters, oldest first, which is the order they are read in.
    pub fn iter(&self) -> (v: Vec<u16>)
        requires
            self.wf(),
        ensures
            v@ == self.contents(),
    {
        let cap = self.entries.len();
        let start = if self.head >= self.len { self.head - self.len } else { self.head + (cap - self.len) };
        let mut v: Vec<u16> = Vec::new();
        let mut i: usize = 0;
        while i < self.len
            invariant
                self.wf(),
                cap == self.entries@.len(),
                start == self.start(),
                i <= self.len,
                v@ == self.contents().subrange(0, i as int),
            decreases self.len - i,
        {
            let idx = if i < cap - start { start + i } else { i - (cap - start) };
            v.push(self.entries[idx]);
            proof {
                assert(v@ =~= self.contents().subrange(0, i + 1));
            }
            i = i + 1;
        }
        assert(v@ =~= self.contents());
        v
    }

    /// How many program counters are recorded.
    pub fn len(&self) -> (n: usize)
        ensures
            n == self.contents().len(),
    {
        self.len
    }

    /// Whether nothing has been recorded yet.
    pub fn is_empty(&self) -> (b: bool)
        ensures
            b == (self.contents().len() == 0),
    {
        self.len == 0
    }

    /// Forget what was recorded, keeping the capacity.
    pub fn clear(&mut self)
        requires
            old(self).wf(),
        ensures
            final(self).wf(),
            final(self).capacity() == old(self).capacity(),
            final(self).contents() == Seq::<u16>::empty(),
    {
        self.head = 0;
        self.len = 0;
        assert(self.contents() =~= Seq::<u16>::empty());
    }
}

/// Why a call frame was pushed.
#[derive(Debug, Copy, Clone, PartialEq, Eq)]
pub enum FrameKind {
    /// A `JSR`.
    Call,
    /// The NMI vector, taken when the PPU asserts it.
    Nmi,
    /// The IRQ vector, taken when the board or the APU pulls the line low.
    Irq,
    /// A `BRK`, which reaches the IRQ vector by executing rather than by a line going low.
    Brk,
}

/// One call execution is currently inside.
#[derive(Debug, Copy, Clone, PartialEq, Eq)]
pub struct CallFrame {
    /// The `JSR`, or the instruction an interrupt arrived before.
    pub caller: u16,
    /// The subroutine, or the handler the vector named.
    pub entry: u16,
    /// The stack pointer once the return address was pushed. The frame is live while the stack
    /// pointer is no higher than this.
    pub sp: u8,
    /// Why the frame was pushed.
    pub kind: FrameKind,
}

/// The calls execution is currently inside, outermost first.
///
/// A frame is pushed by a `JSR` and by an interrupt taking a vector, and dropped by watching the
/// stack pointer rather than by watching for an `RTS`: a return address is often discarded or
/// reached by a jump, and the stack pointer catches all of those the same way.
#[derive(Debug, Clone)]
pub struct CallStack {
    frames: Vec<CallFrame>,
}

/// How many frames `unwind_to(sp)` keeps of `frames`: it drops frames from the top while the
/// stack pointer has risen above them, so what stays ends with a frame at or above `sp`.
pub open spec fn unwound_len(frames: Seq<CallFrame>, sp: u8) -> int
    decreases frames.len(),
{
    if frames.len() == 0 {
        0
    } else if sp > frames.last().sp {
        unwound_len(frames.drop_last(), sp)
    } else {
        frames.len() as int
    }
}

impl View for CallStack {
    type V = Seq<CallFrame>;

    closed spec fn view(&self) -> Seq<CallFrame> {
        self.frames@
    }
}

impl CallStack {
    /// How many frames the stack records. A frame takes at least the two bytes a `JSR` pushes,
    /// out of a 256 byte stack page.
    pub const MAX_DEPTH: usize = 128;

    /// Create an empty call stack.
    pub fn new() -> (s: Self)
        ensures
            s@ == Seq::<CallFrame>::empty(),
    {
        Self { frames: Vec::new() }
    }

    /// Drop the frames the stack pointer has risen past. An `RTS` raises it back over the frame
    /// it returns from.
    pub fn unwind_to(&mut self, sp: u8)
        ensures
            final(self)@ == old(self)@.subrange(0, unwound_len(old(self)@, sp)),
    {
        let ghost orig = self.frames@;
        proof {
            assert(orig.subrange(0, orig.len() as int) =~= orig);
        }
        while self.frames.len() > 0 && sp > self.frames[self.frames.len() - 1].sp
            invariant
                self.frames@.len() <= orig.len(),
                self.frames@ == orig.subrange(0, self.frames@.len() as int),
                unwound_len(self.frames@, sp) == unwound_len(orig, sp),
            decreases self.frames@.len(),
        {
            let ghost before = self.frames@;
            self.frames.pop();
            proof {
                assert(self.frames@ =~= before.drop_last());
                assert(self.frames@ =~= orig.subrange(0, self.frames@.len() as int));
            }
        }
        proof {
            assert(unwound_len(self.frames@, sp) == self.frames@.len());
        }
    }

    /// Record a call. Only a stack pointer that wrapped can reach the depth limit, past which
    /// calls are not recorded.
    pub fn push(&mut self, frame: CallFrame)
        ensures
            final(self)@ == if old(self)@.len() < Self::MAX_DEPTH { old(self)@.push(frame) } else { old(self)@ },
    {
        if self.frames.len() < Self::MAX_DEPTH {
            self.frames.push(frame);
        }
    }

    /// The frames execution is inside, outermost first.
    pub fn frames(&self) -> (f: &[CallFrame])
        ensures
            f@ == self@,
    {
        self.frames.as_slice()
    }

    /// How deep the stack is.
    pub fn len(&self) -> (n: usize)
        ensures
            n == self@.len(),
    {
        self.frames.len()
    }

    /// Whether the stack has no frames.
    pub fn is_empty(&self) -> (b: bool)
        ensures
            b == (self@.len() == 0),
    {
        self.frames.len() == 0
    }

    /// Forget the recorded frames.
    pub fn clear(&mut self)
        ensures
            final(self)@ == Seq::<CallFrame>::empty(),
    {
        self.frames.clear();
    }
}

/// What execution has shown a byte to be: the flags of a `u8` set.
pub struct ByteKind;

impl ByteKind {
    /// Ran as the first byte of an instruction.
    pub const CODE: u8 = 1;
    /// A `JSR` destination or subroutine entry instruction.
    pub const SUB_ENTRY: u8 = 2;

    /// Nothing known.
    pub fn empty() -> (k: u8)
        ensures
            k == 0,
    {
        0
    }

    /// Whether every flag of `kind` is set in `kinds`.
    pub fn contains(kinds: u8, kind: u8) -> (b: bool)
        ensures
            b == (kinds & kind == kind),
    {
        kinds & kind == kind
    }
}

/// What execution has revealed about each byte of cartridge memory.
///
/// Only execution writes here, nothing decodes ahead of it. Keyed by offset into the cartridge's
/// memory instead of CPU address, so a mark survives bank switches.
#[derive(Debug, Clone)]
pub struct CodeMap {
    kinds: Vec<u8>,
    generation: u64,
    /// Which cart the offsets address. See [`CodeMap::covers`].
    rom_crc32: u32,
}

impl CodeMap {
    /// What is known about each byte.
    pub closed spec fn spec_kinds(&self) -> Seq<u8> {
        self.kinds@
    }

    /// How many times a mark has taught the map something new.
    pub closed spec fn spec_generation(&self) -> u64 {
        self.generation
    }

    /// The CRC of the cart the map was recorded against.
    pub closed spec fn spec_rom_crc32(&self) -> u32 {
        self.rom_crc32
    }

    /// What is known about the byte at `offset`, empty past the end.
    pub open spec fn kind_at(&self, offset: int) -> u8 {
        if 0 <= offset < self.spec_kinds().len() { self.spec_kinds()[offset] } else { 0 }
    }

    /// A map covering `len` bytes of the cart with CRC `rom_crc32`, with nothing yet known about
    /// any of them.
    pub fn new(len: usize, rom_crc32: u32) -> (m: Self)
        ensures
            m.spec_kinds().len() == len,
            forall|i: int| 0 <= i < len ==> #[trigger] m.spec_kinds()[i] == 0,
            m.spec_generation() == 0,
            m.spec_rom_crc32() == rom_crc32,
    {
        let mut kinds: Vec<u8> = Vec::new();
        let mut i: usize = 0;
        while i < len
            invariant
                i <= len,
                kinds@.len() == i,
                forall|j: int| 0 <= j < i ==> #[trigger] kinds@[j] == 0,
            decreases len - i,
        {
            kinds.push(0);
            i = i + 1;
        }
        Self { kinds, generation: 0, rom_crc32 }
    }

    /// Mark what the byte at `offset` has been shown to be.
    ///
    /// An offset past the end is ignored, so a caller can pass on whatever a page table gave it.
    /// The generation moves exactly when the map learns something.
    pub fn mark(&mut self, offset: usize, kind: u8)
        requires
            old(self).spec_generation() < u64::MAX,
        ensures
            final(self).spec_rom_crc32() == old(self).spec_rom_crc32(),
            final(self).spec_kinds().len() == old(self).spec_kinds().len(),
            ({
                let learns = offset < old(self).spec_kinds().len()
                    && old(self).kind_at(offset as int) & kind != kind;
                &&& final(self).spec_generation() == old(self).spec_generation() + if learns { 1int } else { 0int }
                &&& forall|i: int| 0 <= i < old(self).spec_kinds().len() ==> #[trigger] final(self).kind_at(i)
                    == if i == offset { old(self).kind_at(i) | kind } else { old(self).kind_at(i) }
            }),
    {
        if offset < self.kinds.len() {
            let entry = self.kinds[offset];
            if entry & kind != kind {
                self.kinds.set(offset, entry | kind);
                self.generation = self.generation + 1;
            } else {
                assert(entry & kind == kind ==> entry | kind == entry) by (bit_vector);
            }
        }
    }

    /// What is known about the byte at `offset`, empty for one nothing has revealed yet.
    pub fn kind(&self, offset: usize) -> (k: u8)
        ensures
            k == self.kind_at(offset as int),
    {
        if offset < self.kinds.len() { self.kinds[offset] } else { ByteKind::empty() }
    }

    /// Whether the byte at `offset` has run as the first byte of an instruction.
    pub fn is_code(&self, offset: usize) -> (b: bool)
        ensures
            b == (self.kind_at(offset as int) & 1 == 1),
    {
        ByteKind::contains(self.kind(offset), ByteKind::CODE)
    }

    /// Bumped whenever a mark records something new, so a view built from the map knows to
    /// rebuild.
    pub fn generation(&self) -> (g: u64)
        ensures
            g == self.spec_generation(),
    {
        self.generation
    }

    /// Whether this was recorded against the cart memory with CRC `rom_crc32` and `len` bytes.
    ///
    /// An offset means nothing against another arena, so a map kept across a cart change has to
    /// be refused rather than reused.
    pub fn covers(&self, rom_crc32: u32, len: usize) -> (b: bool)
        ensures
            b == (self.spec_rom_crc32() == rom_crc32 && self.spec_kinds().len() == len),
    {
        self.rom_crc32 == rom_crc32 && self.kinds.len() == len
    }
}

/// The ways an address can be touched: the flags of a `u8` set.
///
/// A breakpoint has the set it stops on, so one range covers reads, writes and execution in
/// whatever combination the user ticked.
pub struct Access;

impl Access {
    /// Fetched as an instruction; checked between instructions, before the instruction runs.
    pub const EXEC: u8 = 1;
    /// Read by an instruction, other than the fetch.
    pub const READ: u8 = 2;
    /// Written by an instruction.
    pub const WRITE: u8 = 4;

    /// Whether every flag of `access` is set in `set`.
    pub fn contains(set: u8, access: u8) -> (b: bool)
        ensures
            b == (set & access == access),
    {
        set & access == access
    }
}

/// A range of CPU addresses the console stops on, or records, when one is accessed.
#[derive(Debug, Clone, PartialEq, Eq)]
pub struct Breakpoint {
    /// First address covered.
    pub start: u16,
    /// Last address covered, inclusive. Equal to `start` for a single address.
    pub end: u16,
    /// Where `start` sat in the cartridge memory when the breakpoint was set, pinning it to the
    /// bytes it was set over; `None` where the address has no such offset (work RAM, registers).
    pub offset: Option<u32>,
    /// Which accesses trip it.
    pub access: u8,
    /// Cleared to record the access and let the console run on.
    pub breaks: bool,
    /// An expression that has to hold as well, or `None` to trip on every covered access.
    pub condition: Option<Expr>,
}

/// Whether breakpoint `b` covers address `addr`.
pub open spec fn in_range(b: Breakpoint, addr: int) -> bool {
    b.start <= addr <= b.end
}

impl Breakpoint {
    /// Whether this covers `addr` and stops on `access`.
    pub fn covers(&self, addr: u16, access: u8) -> (b: bool)
        ensures
            b == (self.start <= addr && addr <= self.end && self.access & access == access),
    {
        self.start <= addr && addr <= self.end && Access::contains(self.access, access)
    }

    /// Whether this covers `addr` and stops on `access`, with the bank it was set in still mapped
    /// at `start`: `start_offset` is where `start` sits in cartridge memory now.
    ///
    /// The whole range answers to `start`'s bank, since the memory is contiguous across a range
    /// only while one bank holds all of it.
    pub fn matches(&self, start_offset: Option<usize>, addr: u16, access: u8) -> (b: bool)
        ensures
            b == (self.start <= addr && addr <= self.end && self.access & access == access && match self.offset {
                Some(offset) => start_offset == Some(offset as usize),
                None => true,
            }),
    {
        self.covers(addr, access) && match self.offset {
            Some(offset) => match start_offset {
                Some(o) => o == offset as usize,
                None => false,
            },
            None => true,
        }
    }
}

/// Whether `b`'s condition holds against `cpu`: no condition always does.
pub open spec fn condition_holds(b: Breakpoint, cpu: CpuView) -> bool {
    match b.condition {
        Some(e) => run_ops(e.spec_ops(), cpu).0[0] != 0,
        None => true,
    }
}

/// Whether `b` trips on `access` to `addr` with `start_offset` mapped at its start, condition
/// and all.
pub open spec fn trips(b: Breakpoint, cpu: CpuView, start_offset: Option<usize>, addr: u16, access: u8) -> bool {
    &&& b.start <= addr <= b.end
    &&& b.access & access == access
    &&& match b.offset {
        Some(offset) => start_offset == Some(offset as usize),
        None => true,
    }
    &&& condition_holds(b, cpu)
}

impl Breakpoint {
    /// Whether this trips on `access` to `addr`, condition and all; the condition is asked last,
    /// since it is the only part that reads the console.
    pub fn fires(&self, cpu: &Cpu, start_offset: Option<usize>, addr: u16, access: u8) -> (b: bool)
        requires
            cpu.wf(),
        ensures
            b == trips(*self, cpu@, start_offset, addr, access),
    {
        self.matches(start_offset, addr, access) && match &self.condition {
            Some(condition) => condition.is_true(cpu),
            None => true,
        }
    }
}

/// What the armed breakpoints make of one access.
#[derive(Debug, Default, Copy, Clone, PartialEq, Eq)]
pub struct Verdict {
    /// A breakpoint that stops the console tripped.
    pub stop: bool,
    /// A breakpoint that keeps the console running tripped, so the access is worth logging.
    pub record: bool,
}

/// An access a [`Breakpoint`] caught.
#[derive(Debug, Copy, Clone, PartialEq, Eq)]
pub struct AccessHit {
    /// The instruction that made the access.
    pub pc: u16,
    /// The address touched.
    pub addr: u16,
    /// How it was touched, one flag of [`Access`].
    pub access: u8,
    /// The byte read or written.
    pub value: u8,
}

/// Whether bit `a` of the bitmap `words` is set.
pub open spec fn bit_set(words: Seq<u64>, a: int) -> bool {
    (words[a / 64] >> ((a % 64) as u64)) & 1 == 1
}

/// Whether any of `list` covers address `a`.
pub open spec fn any_covers(list: Seq<Breakpoint>, a: int) -> bool {
    exists|j: int| 0 <= j < list.len() && in_range(#[trigger] list[j], a)
}

/// Setting one bit of a word leaves the others as they were; a bit test reads it back.
proof fn lemma_set_bit(x: u64, b: u64, k: u64)
    by (bit_vector)
    requires
        b < 64,
        k < 64,
    ensures
        ((x | (1u64 << b)) >> k) & 1 == 1 <==> (((x >> k) & 1 == 1) || k == b),
        (x & (1u64 << k) != 0) <==> ((x >> k) & 1 == 1),
        (0u64 >> k) & 1 == 0,
{
}

/// The armed breakpoints, with a bitmap over every address they cover.
///
/// The bitmap is a pre-filter: an access matching none of them tests one bit and stops there.
#[derive(Debug, Clone, PartialEq)]
pub struct Breakpoints {
    /// One bit per CPU address, set where any breakpoint covers it, whatever the access.
    covered: Vec<u64>,
    /// The armed breakpoints.
    list: Vec<Breakpoint>,
    /// Accesses the breakpoints that keep running have caught, waiting to be drained.
    hits: Vec<AccessHit>,
}

impl Breakpoints {
    /// How many 64-bit words the bitmap over 64K addresses takes.
    const WORDS: usize = 1024;
    /// How many breakpoints are kept, which bounds the scan a hit pays for.
    pub const MAX: usize = 64;
    /// How many recorded accesses are kept between drains.
    pub const MAX_HITS: usize = 256;

    /// The armed breakpoints.
    pub closed spec fn spec_list(&self) -> Seq<Breakpoint> {
        self.list@
    }

    /// The accesses caught and not yet drained.
    pub closed spec fn spec_hits(&self) -> Seq<AccessHit> {
        self.hits@
    }

    /// The internal invariant: the bitmap marks exactly the addresses some breakpoint covers.
    pub closed spec fn wf(&self) -> bool {
        &&& self.covered@.len() == Self::WORDS
        &&& self.list@.len() <= Self::MAX
        &&& forall|a: int| 0 <= a < 0x10000 ==> (#[trigger] bit_set(self.covered@, a) <==> any_covers(self.list@, a))
    }

    /// Arm `breakpoints`, dropping any past [`Breakpoints::MAX`].
    pub fn new(breakpoints: Vec<Breakpoint>) -> (b: Self)
        ensures
            b.wf(),
            b.spec_list() == breakpoints@.take(if breakpoints@.len() < Self::MAX { breakpoints@.len() as int } else { Self::MAX as int }),
            b.spec_hits() == Seq::<AccessHit>::empty(),
    {
        let mut list = breakpoints;
        list.truncate(Self::MAX);
        let mut covered: Vec<u64> = Vec::new();
        let mut w: usize = 0;
        while w < Self::WORDS
            invariant
                w <= Self::WORDS,
                covered@.len() == w,
                forall|j: int| 0 <= j < w ==> covered@[j] == 0,
            decreases Self::WORDS - w,
        {
            covered.push(0);
            w = w + 1;
        }
        assert forall|a: int| 0 <= a < 0x10000 implies !#[trigger] bit_set(covered@, a) by {
            lemma_set_bit(0, 0, (a % 64) as u64);
        }
        let mut i: usize = 0;
        while i < list.len()
            invariant
                i <= list@.len(),
                covered@.len() == Self::WORDS,
                forall|a: int| 0 <= a < 0x10000 ==> (#[trigger] bit_set(covered@, a) <==> any_covers(list@.take(i as int), a)),
            decreases list@.len() - i,
        {
            let start = list[i].start as u32;
            let end = list[i].end as u32;
            let mut addr: u32 = start;
            while addr <= end
                invariant
                    i < list@.len(),
                    start == list@[i as int].start,
                    end == list@[i as int].end,
                    addr == start || (start <= addr <= end + 1),
                    covered@.len() == Self::WORDS,
                    forall|a: int| 0 <= a < 0x10000 ==> (#[trigger] bit_set(covered@, a)
                        <==> (any_covers(list@.take(i as int), a) || (start <= a < addr))),
                decreases end + 1 - addr,
            {
                let word = (addr / 64) as usize;
                let b = (addr % 64) as u64;
                let ghost before = covered@;
                let x = covered[word];
                covered.set(word, x | (1u64 << b));
                proof {
                    assert forall|a: int| 0 <= a < 0x10000 implies (#[trigger] bit_set(covered@, a)
                        <==> (bit_set(before, a) || a == addr)) by {
                        lemma_set_bit(x, b, (a % 64) as u64);
                    }
                }
                addr = addr + 1;
            }
            proof {
                let next = list@.take(i + 1);
                assert forall|a: int| 0 <= a < 0x10000 implies (#[trigger] bit_set(covered@, a) <==> any_covers(next, a)) by {
                    if any_covers(list@.take(i as int), a) {
                        let j = choose|j: int| 0 <= j < i && in_range(#[trigger] list@.take(i as int)[j], a);
                        assert(next[j] == list@.take(i as int)[j]);
                    }
                    if start <= a <= end {
                        assert(in_range(next[i as int], a));
                    }
                    if any_covers(next, a) {
                        let j = choose|j: int| 0 <= j < i + 1 && in_range(#[trigger] next[j], a);
                        if j < i {
                            assert(list@.take(i as int)[j] == next[j]);
                        }
                    }
                }
            }
            i = i + 1;
        }
        assert(list@.take(list@.len() as int) =~= list@);
        Self { covered, list, hits: Vec::new() }
    }

    /// Whether any breakpoint covers `addr`, whatever the access: one bit test.
    pub fn watches(&self, addr: u16) -> (b: bool)
        requires
            self.wf(),
        ensures
            b == any_covers(self.spec_list(), addr as int),
    {
        let word = (addr / 64) as usize;
        let b = (addr % 64) as u64;
        proof {
            lemma_set_bit(self.covered@[word as int], 0, b);
            assert(bit_set(self.covered@, addr as int) == any_covers(self.list@, addr as int));
        }
        self.covered[word] & (1u64 << b) != 0
    }

    /// What the armed breakpoints make of `access` to `addr`, with `start_offsets[i]` where
    /// breakpoint `i`'s start sits in cartridge memory now. An address nothing watches costs one
    /// bit test.
    pub fn check(&self, cpu: &Cpu, start_offsets: &[Option<usize>], addr: u16, access: u8) -> (v: Verdict)
        requires
            self.wf(),
            cpu.wf(),
            start_offsets@.len() == self.spec_list().len(),
        ensures
            v.stop == exists|i: int| 0 <= i < self.spec_list().len()
                && #[trigger] trips(self.spec_list()[i], cpu@, start_offsets@[i], addr, access) && self.spec_list()[i].breaks,
            v.record == exists|i: int| 0 <= i < self.spec_list().len()
                && #[trigger] trips(self.spec_list()[i], cpu@, start_offsets@[i], addr, access) && !self.spec_list()[i].breaks,
    {
        let mut verdict = Verdict { stop: false, record: false };
        if !self.watches(addr) {
            return verdict;
        }
        let mut i: usize = 0;
        while i < self.list.len()
            invariant
                self.wf(),
                cpu.wf(),
                start_offsets@.len() == self.list@.len(),
                i <= self.list@.len(),
                verdict.stop == exists|j: int| 0 <= j < i
                    && #[trigger] trips(self.list@[j], cpu@, start_offsets@[j], addr, access) && self.list@[j].breaks,
                verdict.record == exists|j: int| 0 <= j < i
                    && #[trigger] trips(self.list@[j], cpu@, start_offsets@[j], addr, access) && !self.list@[j].breaks,
            decreases self.list@.len() - i,
        {
            if self.list[i].fires(cpu, start_offsets[i], addr, access) {
                if self.list[i].breaks {
                    verdict.stop = true;
                } else {
                    verdict.record = true;
                }
            }
            i = i + 1;
        }
        verdict
    }

    /// Serves an access the program made: logs it for the breakpoints that record, and keeps
    /// it in `access_hit` for the ones that stop, unless an earlier hit is already waiting there.
    /// `pc` is the instruction that made the access.
    pub fn check_access(
        &mut self,
        cpu: &Cpu,
        start_offsets: &[Option<usize>],
        pc: u16,
        addr: u16,
        access: u8,
        value: u8,
        access_hit: &mut Option<AccessHit>,
    )
        requires
            old(self).wf(),
            cpu.wf(),
            start_offsets@.len() == old(self).spec_list().len(),
        ensures
            ({
                let hit = AccessHit { pc, addr, access, value };
                let list = old(self).spec_list();
                let record = exists|i: int| 0 <= i < list.len()
                    && #[trigger] trips(list[i], cpu@, start_offsets@[i], addr, access) && !list[i].breaks;
                let stop = exists|i: int| 0 <= i < list.len()
                    && #[trigger] trips(list[i], cpu@, start_offsets@[i], addr, access) && list[i].breaks;
                &&& final(self).wf()
                &&& final(self).spec_list() == list
                &&& final(self).spec_hits() == if record && old(self).spec_hits().len() < Self::MAX_HITS {
                    old(self).spec_hits().push(hit)
                } else {
                    old(self).spec_hits()
                }
                &&& *final(access_hit) == if stop && (*old(access_hit)) is None { Some(hit) } else { *old(access_hit) }
            }),
    {
        let hit = AccessHit { pc, addr, access, value };
        let verdict = self.check(cpu, start_offsets, addr, access);
        if verdict.record {
            self.record(hit);
        }
        if verdict.stop && access_hit.is_none() {
            *access_hit = Some(hit);
        }
    }

    /// Serves the instruction about to run at `pc`: logs it, its opcode as the value, for the
    /// breakpoints that record execution. Stopping on execution is left to whoever drives the
    /// console, between instructions, since a stop part way through one cannot be unwound.
    pub fn check_exec(&mut self, cpu: &Cpu, start_offsets: &[Option<usize>], pc: u16)
        requires
            old(self).wf(),
            cpu.wf(),
            start_offsets@.len() == old(self).spec_list().len(),
        ensures
            ({
                let hit = AccessHit { pc, addr: pc, access: Access::EXEC, value: cpu@.at(pc) };
                let list = old(self).spec_list();
                let record = exists|i: int| 0 <= i < list.len()
                    && #[trigger] trips(list[i], cpu@, start_offsets@[i], pc, Access::EXEC) && !list[i].breaks;
                &&& final(self).wf()
                &&& final(self).spec_list() == list
                &&& final(self).spec_hits() == if record && old(self).spec_hits().len() < Self::MAX_HITS {
                    old(self).spec_hits().push(hit)
                } else {
                    old(self).spec_hits()
                }
            }),
    {
        if self.check(cpu, start_offsets, pc, Access::EXEC).record {
            let opcode = cpu.peek(pc);
            self.record(AccessHit { pc, addr: pc, access: Access::EXEC, value: opcode });
        }
    }

    /// The armed breakpoints.
    pub fn list(&self) -> (l: &[Breakpoint])
        ensures
            l@ == self.spec_list(),
    {
        self.list.as_slice()
    }

    /// Log an access a breakpoint that records caught, dropping it once the log is full.
    pub fn record(&mut self, hit: AccessHit)
        ensures
            final(self).spec_list() == old(self).spec_list(),
            final(self).wf() == old(self).wf(),
            final(self).spec_hits() == if old(self).spec_hits().len() < Self::MAX_HITS {
                old(self).spec_hits().push(hit)
            } else {
                old(self).spec_hits()
            },
    {
        if self.hits.len() < Self::MAX_HITS {
            self.hits.push(hit);
        }
    }

    /// Take over what `previous` caught, for a set replacing it: a caught access outlives the
    /// breakpoints that were armed when it happened.
    pub fn adopt_hits(&mut self, previous: &mut Self)
        ensures
            final(self).spec_list() == old(self).spec_list(),
            final(self).wf() == old(self).wf(),
            final(self).spec_hits() == old(previous).spec_hits().take(
                if old(previous).spec_hits().len() < Self::MAX_HITS { old(previous).spec_hits().len() as int } else { Self::MAX_HITS as int },
            ),
            final(previous).spec_list() == old(previous).spec_list(),
            final(previous).wf() == old(previous).wf(),
            final(previous).spec_hits() == Seq::<AccessHit>::empty(),
    {
        let mut taken: Vec<AccessHit> = Vec::new();
        std::mem::swap(&mut taken, &mut previous.hits);
        taken.truncate(Self::MAX_HITS);
        self.hits = taken;
    }

    /// Take the accesses recorded since the last drain.
    pub fn drain_hits(&mut self) -> (hits: Vec<AccessHit>)
        ensures
            hits@ == old(self).spec_hits(),
            final(self).spec_list() == old(self).spec_list(),
            final(self).wf() == old(self).wf(),
            final(self).spec_hits() == Seq::<AccessHit>::empty(),
    {
        let mut taken: Vec<AccessHit> = Vec::new();
        std::mem::swap(&mut taken, &mut self.hits);
        taken
    }

    /// Put back what [`Breakpoints::drain_hits`] took, dropping anything caught in between.
    pub fn restore_hits(&mut self, hits: Vec<AccessHit>)
        ensures
            final(self).spec_list() == old(self).spec_list(),
            final(self).wf() == old(self).wf(),
            final(self).spec_hits() == hits@,
    {
        self.hits = hits;
    }

    /// Whether nothing is armed.
    pub fn is_empty(&self) -> (b: bool)
        ensures
            b == (self.spec_list().len() == 0),
    {
        self.list.len() == 0
    }
}

} // verus!
