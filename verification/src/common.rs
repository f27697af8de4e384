//! Types shared across the emulation components.
use vstd::prelude::*;

verus! {

/// Error parsing a [`NesRegion`] from a string or an index.
#[derive(Debug, Clone, Copy, PartialEq, Eq)]
pub struct ParseNesRegionError;

/// Which regional console a ROM runs on, which sets the clock rates, the frame height and a
/// handful of behavioural differences.
#[derive(Debug, Copy, Clone, PartialEq, Eq, Structural, Hash)]
pub enum NesRegion {
    /// Auto-detect region based on ROM headers and a pre-built game database.
    Auto,
    /// NTSC, primarily North America.
    Ntsc,
    /// PAL, primarily Japan and Europe.
    Pal,
    /// Dendy, primarily Russia.
    Dendy,
}

impl Default for NesRegion {
    fn default() -> (r: Self)
        ensures
            r == NesRegion::Ntsc,
    {
        NesRegion::Ntsc
    }
}

/// The stable string name of a region, as used in config files.
pub open spec fn region_name(region: NesRegion) -> Seq<char> {
    match region {
        NesRegion::Auto => "auto"@,
        NesRegion::Ntsc => "ntsc"@,
        NesRegion::Pal => "pal"@,
        NesRegion::Dendy => "dendy"@,
    }
}

/// No two regions share a name, so [`NesRegion::try_from_str`] of a region's
/// [`NesRegion::as_str`] gives that region back.
pub proof fn lemma_region_names_parse_back(a: NesRegion, b: NesRegion)
    ensures
        region_name(a) == region_name(b) ==> a == b,
{
    reveal_strlit("auto");
    reveal_strlit("ntsc");
    reveal_strlit("pal");
    reveal_strlit("dendy");
    if region_name(a) == region_name(b) {
        assert(region_name(a)[0] == region_name(b)[0]);
    }
}

/// The region as a player reads it.
pub open spec fn region_label(region: NesRegion) -> Seq<char> {
    match region {
        NesRegion::Auto => "Auto"@,
        NesRegion::Ntsc => "NTSC"@,
        NesRegion::Pal => "PAL"@,
        NesRegion::Dendy => "Dendy"@,
    }
}

/// The region at a position of the enumeration order `Auto, Ntsc, Pal, Dendy`.
pub open spec fn region_at(index: int) -> Option<NesRegion> {
    if index == 0 {
        Some(NesRegion::Auto)
    } else if index == 1 {
        Some(NesRegion::Ntsc)
    } else if index == 2 {
        Some(NesRegion::Pal)
    } else if index == 3 {
        Some(NesRegion::Dendy)
    } else {
        None
    }
}

impl NesRegion {
    /// Every region, for enumerating them in a UI.
    pub fn as_slice() -> (v: Vec<NesRegion>)
        ensures
            v@ == seq![NesRegion::Auto, NesRegion::Ntsc, NesRegion::Pal, NesRegion::Dendy],
    {
        vec![NesRegion::Auto, NesRegion::Ntsc, NesRegion::Pal, NesRegion::Dendy]
    }

    /// Whether the region is detected from the ROM rather than fixed.
    pub fn is_auto(&self) -> (b: bool)
        ensures
            b <==> *self == NesRegion::Auto,
    {
        matches!(self, NesRegion::Auto)
    }

    /// Whether this is NTSC timing, which an undetected region defaults to.
    pub fn is_ntsc(&self) -> (b: bool)
        ensures
            b <==> (*self == NesRegion::Auto || *self == NesRegion::Ntsc),
    {
        matches!(self, NesRegion::Auto | NesRegion::Ntsc)
    }

    /// Whether this is PAL timing.
    pub fn is_pal(&self) -> (b: bool)
        ensures
            b <==> *self == NesRegion::Pal,
    {
        matches!(self, NesRegion::Pal)
    }

    /// Whether this is Dendy timing.
    pub fn is_dendy(&self) -> (b: bool)
        ensures
            b <==> *self == NesRegion::Dendy,
    {
        matches!(self, NesRegion::Dendy)
    }

    /// The region as a player reads it: `Auto`, `NTSC`, `PAL` or `Dendy`.
    pub fn text(&self) -> (s: &'static str)
        ensures
            s@ == region_label(*self),
    {
        match self {
            NesRegion::Auto => "Auto",
            NesRegion::Ntsc => "NTSC",
            NesRegion::Pal => "PAL",
            NesRegion::Dendy => "Dendy",
        }
    }

    /// The region's stable string name, as used in config files.
    pub fn as_str(&self) -> (s: &'static str)
        ensures
            s@ == region_name(*self),
    {
        proof {
            reveal_strlit("auto");
            reveal_strlit("ntsc");
            reveal_strlit("pal");
            reveal_strlit("dendy");
        }
        match self {
            NesRegion::Auto => "auto",
            NesRegion::Ntsc => "ntsc",
            NesRegion::Pal => "pal",
            NesRegion::Dendy => "dendy",
        }
    }

    /// Parses a region from its stable string name, the inverse of [`NesRegion::as_str`].
    pub fn try_from_str(value: &str) -> (r: Result<NesRegion, ParseNesRegionError>)
        ensures
            r matches Ok(region) ==> region_name(region) == value@,
            r is Err ==> (forall|region: NesRegion| region_name(region) != value@),
    {
        proof {
            reveal_strlit("auto");
            reveal_strlit("ntsc");
            reveal_strlit("pal");
            reveal_strlit("dendy");
        }
        if str_eq(value, "auto") {
            Ok(NesRegion::Auto)
        } else if str_eq(value, "ntsc") {
            Ok(NesRegion::Ntsc)
        } else if str_eq(value, "pal") {
            Ok(NesRegion::Pal)
        } else if str_eq(value, "dendy") {
            Ok(NesRegion::Dendy)
        } else {
            Err(ParseNesRegionError)
        }
    }

    /// The region at a position of the enumeration order `Auto, Ntsc, Pal, Dendy`.
    pub fn try_from_index(value: usize) -> (r: Result<NesRegion, ParseNesRegionError>)
        ensures
            r matches Ok(region) ==> region_at(value as int) == Some(region),
            r is Err <==> region_at(value as int) is None,
    {
        match value {
            0 => Ok(NesRegion::Auto),
            1 => Ok(NesRegion::Ntsc),
            2 => Ok(NesRegion::Pal),
            3 => Ok(NesRegion::Dendy),
            _ => Err(ParseNesRegionError),
        }
    }
}

/// Whether two strings hold the same characters.
pub fn str_eq(a: &str, b: &str) -> (r: bool)
    ensures
        r <==> a@ == b@,
{
    let a_len = a.unicode_len();
    let b_len = b.unicode_len();
    if a_len != b_len {
        return false;
    }
    let mut i: usize = 0;
    while i < a_len
        invariant
            a_len == a@.len(),
            b_len == b@.len(),
            a_len == b_len,
            0 <= i <= a_len,
            forall|j: int| 0 <= j < i ==> a@[j] == b@[j],
        decreases a_len - i,
    {
        if a.get_char(i) != b.get_char(i) {
            return false;
        }
        i = i + 1;
    }
    assert(a@ =~= b@);
    true
}

/// Type of reset for types that have different behavior for reset vs power cycling.
#[derive(Debug, Copy, Clone, PartialEq, Eq, Structural, Hash)]
pub enum ResetKind {
    /// Soft reset generally doesn't zero-out most registers or RAM.
    Soft,
    /// Hard reset generally zeros-out most registers and RAM.
    Hard,
}

/// Appends `c` to `s`, as `String::push` does.
#[verifier::external_body]
pub(crate) fn push_char(s: &mut String, c: char)
    ensures
        final(s)@ == old(s)@.push(c),
{
    s.push(c)
}

/// The character of digit `d` (below 16), with letters in the given case.
pub open spec fn digit_char(d: int, upper: bool) -> char {
    if d < 10 {
        (('0' as int) + d) as char
    } else if upper {
        (('A' as int) + d - 10) as char
    } else {
        (('a' as int) + d - 10) as char
    }
}

/// `n` written in base `base` (10 or 16), with no leading zeros.
pub open spec fn digits(n: nat, base: nat, upper: bool) -> Seq<char>
    decreases n,
{
    if base < 2 || n < base {
        seq![digit_char(n as int, upper)]
    } else {
        proof {
            assert(n / base < n) by (nonlinear_arith)
                requires
                    base >= 2,
                    n >= base,
            ;
        }
        digits(n / base, base, upper).push(digit_char((n % base) as int, upper))
    }
}

/// `s` with `pad` in front, to at least `width` characters.
pub open spec fn padded(s: Seq<char>, width: nat, pad: char) -> Seq<char> {
    if s.len() < width { Seq::new((width - s.len()) as nat, |i: int| pad) + s } else { s }
}

/// The character of digit `d`.
fn digit(d: u64, upper: bool) -> (c: char)
    requires
        d < 16,
    ensures
        c == digit_char(d as int, upper),
{
    let b = d as u8;
    if b < 10 {
        (48u8 + b) as char
    } else if upper {
        (55u8 + b) as char
    } else {
        (87u8 + b) as char
    }
}

/// Appends the digits of `n` in `base` to `s`.
fn push_digits(s: &mut String, n: u64, base: u64, upper: bool)
    requires
        base == 10 || base == 16,
    ensures
        final(s)@ == old(s)@ + digits(n as nat, base as nat, upper),
    decreases n,
{
    if n >= base {
        push_digits(s, n / base, base, upper);
    }
    push_char(s, digit(n % base, upper));
    proof {
        assert(final(s)@ =~= old(s)@ + digits(n as nat, base as nat, upper));
    }
}

/// Appends `n` in base `base` (10 or 16) to `s`, padded with `pad` in front to `width`
/// characters, as `write!(s, "{n:>width$}")` does with spaces.
pub fn push_number_padded(s: &mut String, n: u64, base: u64, upper: bool, width: usize, pad: char)
    requires
        base == 10 || base == 16,
    ensures
        final(s)@ == old(s)@ + padded(digits(n as nat, base as nat, upper), width as nat, pad),
{
    let mut t = String::new();
    push_digits(&mut t, n, base, upper);
    let len = t.as_str().unicode_len();
    let ghost start = s@;
    let mut k: usize = len;
    while k < width
        invariant
            len == t@.len(),
            len <= k,
            k <= width || k == len,
            s@ == start + Seq::new((k - len) as nat, |i: int| pad),
        decreases width - k,
    {
        push_char(s, pad);
        proof {
            assert(s@ =~= start + Seq::new((k + 1 - len) as nat, |i: int| pad));
        }
        k = k + 1;
    }
    s.append(t.as_str());
    proof {
        let d = digits(n as nat, base as nat, upper);
        assert(s@ =~= start + padded(d, width as nat, pad));
    }
}

/// Appends `n` in base `base` (10 or 16) to `s`, zero-padded to `width` characters, as
/// `write!(s, "{n:0width$}")` (or with `x` or `X`) does.
pub fn push_number(s: &mut String, n: u64, base: u64, upper: bool, width: usize)
    requires
        base == 10 || base == 16,
    ensures
        final(s)@ == old(s)@ + padded(digits(n as nat, base as nat, upper), width as nat, '0'),
{
    push_number_padded(s, n, base, upper, width, '0');
}

/// A byte as a hex dump shows it among the others: a space, then two uppercase hex digits.
pub open spec fn hex_byte(b: u8) -> Seq<char> {
    seq![' ', digit_char(b as int / 16, true), digit_char(b as int % 16, true)]
}

/// The bytes of `bs` as a hex dump shows them.
pub open spec fn hex_bytes(bs: Seq<u8>) -> Seq<char>
    decreases bs.len(),
{
    if bs.len() == 0 { Seq::empty() } else { hex_bytes(bs.drop_last()) + hex_byte(bs.last()) }
}

/// A byte as the text column shows it: printable ASCII as itself, anything else as `.`.
pub open spec fn text_char(b: u8) -> char {
    if 0x20 <= b < 0x7F { b as char } else { '.' }
}

/// `n` copies of `c`.
pub open spec fn repeated(c: char, n: nat) -> Seq<char> {
    Seq::new(n, |i: int| c)
}

/// One line of a hex dump, without its address: the bytes in hex, padding for a short line, and
/// the bytes as text between bars.
pub open spec fn dump_line(chunk: Seq<u8>) -> Seq<char> {
    let pad = if chunk.len() % 16 != 0 { repeated(' ', (3 * ((16 - chunk.len()) / 2)) as nat) } else { Seq::empty() };
    let text = if chunk.len() > 0 {
        seq![' ', ' ', '|'] + chunk.map_values(|b: u8| text_char(b)) + seq!['|']
    } else {
        Seq::empty()
    };
    hex_bytes(chunk) + pad + text
}

/// The sixteen (or fewer, at the end) bytes of line `k`.
pub open spec fn dump_chunk(data: Seq<u8>, k: nat) -> Seq<u8> {
    let start: int = 16 * (k as int);
    let end: int = if start + 16 < data.len() { start + 16 } else { data.len() as int };
    data.subrange(start as int, end)
}

/// Line `k` of the dump of `data`, without its address.
pub open spec fn nth_line(data: Seq<u8>, k: nat) -> Seq<char> {
    dump_line(dump_chunk(data, k))
}

/// Whether line `k` of the dump repeats the line before it.
pub open spec fn repeats(data: Seq<u8>, k: nat) -> bool {
    k > 0 && nth_line(data, k) == nth_line(data, (k - 1) as nat)
}

/// What line `k` contributes to the dump: the line behind its address, unless it repeats the
/// line before; a run of repeats is marked by one `*`, at its first line.
pub open spec fn dump_entry(data: Seq<u8>, offset: nat, k: nat) -> Seq<Seq<char>> {
    if !repeats(data, k) {
        seq![padded(digits(16 * k + offset, 16, false), 8, '0') + seq![' '] + nth_line(data, k)]
    } else if !repeats(data, (k - 1) as nat) {
        seq![seq!['*']]
    } else {
        Seq::empty()
    }
}

/// What the first `k` lines contribute to the dump, in order.
pub open spec fn dump_entries(data: Seq<u8>, offset: nat, k: nat) -> Seq<Seq<char>>
    decreases k,
{
    if k == 0 {
        Seq::empty()
    } else {
        dump_entries(data, offset, (k - 1) as nat) + dump_entry(data, offset, (k - 1) as nat)
    }
}

/// The lines of the hex dump of `data`: none for empty data, else the entries of one line per
/// 16 bytes, plus a last line for the end address when the data fills its lines.
pub open spec fn dump_lines(data: Seq<u8>, offset: nat) -> Seq<Seq<char>> {
    if data.len() == 0 {
        Seq::empty()
    } else {
        dump_entries(data, offset, (data.len() / 16 + 1) as nat)
    }
}

/// The addresses a dump computes fit in a `usize`: the start of its last line plus 16, and that
/// start plus the offset.
pub open spec fn dump_fits(len: nat, offset: nat) -> bool {
    len > 0 ==> 16 * (len / 16) + 16 <= usize::MAX && 16 * (len / 16) + offset <= usize::MAX
}

/// Appends the hex of `bs` to `s`.
fn push_hex_bytes(s: &mut String, bs: &[u8], start: usize, end: usize)
    requires
        start <= end <= bs@.len(),
    ensures
        final(s)@ == old(s)@ + hex_bytes(bs@.subrange(start as int, end as int)),
{
    let ghost base = s@;
    let mut i: usize = start;
    while i < end
        invariant
            start <= i <= end <= bs@.len(),
            s@ == base + hex_bytes(bs@.subrange(start as int, i as int)),
        decreases end - i,
    {
        let b = bs[i];
        push_char(s, ' ');
        push_number(s, b as u64, 16, true, 2);
        proof {
            let sub = bs@.subrange(start as int, i + 1);
            assert(sub.drop_last() =~= bs@.subrange(start as int, i as int));
            lemma_two_hex_digits(b);
            assert(s@ =~= base + hex_bytes(sub));
        }
        i = i + 1;
    }
}

/// A byte in two uppercase hex digits, zero-padded, is its high then its low nibble.
proof fn lemma_two_hex_digits(b: u8)
    ensures
        padded(digits(b as nat, 16, true), 2, '0') == seq![digit_char(b as int / 16, true), digit_char(b as int % 16, true)],
{
    let d = digits(b as nat, 16, true);
    if b < 16 {
        assert(d == seq![digit_char(b as int, true)]);
        assert(padded(d, 2, '0') =~= seq!['0', digit_char(b as int, true)]);
    } else {
        assert(b as nat / 16 < 16);
        assert(digits(b as nat / 16, 16, true) == seq![digit_char(b as int / 16, true)]);
        assert(d =~= seq![digit_char(b as int / 16, true), digit_char(b as int % 16, true)]);
    }
}

/// One line of a hex dump, without its address, for the bytes of `data` from `addr` to `end`.
fn format_dump_line(data: &[u8], addr: usize, end: usize) -> (line: String)
    requires
        addr <= end <= data@.len(),
        end - addr <= 16,
    ensures
        line@ == dump_line(data@.subrange(addr as int, end as int)),
{
    let mut line = String::new();
    push_hex_bytes(&mut line, data, addr, end);
    let line_len = end - addr;
    if line_len % 16 != 0 {
        let words_left = (16 - line_len) / 2;
        let mut j: usize = 0;
        let ghost before = line@;
        while j < 3 * words_left
            invariant
                j <= 3 * words_left,
                words_left <= 8,
                line@ == before + repeated(' ', j as nat),
            decreases 3 * words_left - j,
        {
            push_char(&mut line, ' ');
            proof {
                assert(line@ =~= before + repeated(' ', (j + 1) as nat));
            }
            j = j + 1;
        }
    }
    if line_len > 0 {
        let ghost before = line@;
        push_char(&mut line, ' ');
        push_char(&mut line, ' ');
        push_char(&mut line, '|');
        let mut i: usize = addr;
        while i < end
            invariant
                addr <= i <= end <= data@.len(),
                line@ == before + seq![' ', ' ', '|'] + data@.subrange(addr as int, i as int).map_values(|b: u8| text_char(b)),
            decreases end - i,
        {
            let b = data[i];
            let c = if 0x20 <= b && b < 0x7F { b as char } else { '.' };
            push_char(&mut line, c);
            proof {
                assert(data@.subrange(addr as int, i + 1).map_values(|b: u8| text_char(b))
                    =~= data@.subrange(addr as int, i as int).map_values(|b: u8| text_char(b)).push(c));
            }
            i = i + 1;
        }
        push_char(&mut line, '|');
    }
    proof {
        assert(data@.subrange(addr as int, end as int).len() == end - addr);
        assert(line@ =~= dump_line(data@.subrange(addr as int, end as int)));
    }
    line
}

/// Formats `data` as a hex dump, one returned [`String`] per 16-byte line, with addresses starting
/// at `addr_offset`.
///
/// Runs of identical lines collapse to a single `*`, the way `hexdump -C` does; a `*` only ever
/// stands for repeats of a line already printed, so empty data gives no lines at all.
pub fn hexdump(data: &[u8], addr_offset: usize) -> (lines: Vec<String>)
    requires
        dump_fits(data@.len(), addr_offset as nat),
    ensures
        lines@.len() == dump_lines(data@, addr_offset as nat).len(),
        forall|i: int| 0 <= i < lines@.len() ==> #[trigger] lines@[i]@ == dump_lines(data@, addr_offset as nat)[i],
{
    let len = data.len();
    if len == 0 {
        return Vec::new();
    }
    let mut addr: usize = 0;
    let mut last_same = false;
    let mut output: Vec<String> = Vec::new();
    let mut last_line = String::new();
    let ghost mut k: nat = 0;
    while addr <= len
        invariant
            len == data@.len(),
            len > 0,
            dump_fits(len as nat, addr_offset as nat),
            addr == 16 * k,
            k <= len / 16 + 1,
            addr <= len ==> k <= len / 16,
            addr > len ==> k == len / 16 + 1,
            ({
                let entries = dump_entries(data@, addr_offset as nat, k);
                &&& output@.len() == entries.len()
                &&& forall|i: int| 0 <= i < output@.len() ==> #[trigger] output@[i]@ == entries[i]
                &&& last_line@ == if k == 0 { Seq::<char>::empty() } else { nth_line(data@, (k - 1) as nat) }
                &&& last_same == (k > 0 && repeats(data@, (k - 1) as nat))
            }),
        decreases len + 16 - addr,
    {
        let end = if addr + 16 < len { addr + 16 } else { len };
        let line = format_dump_line(data, addr, end);
        proof {
            assert(dump_chunk(data@, k) =~= data@.subrange(addr as int, end as int));
            assert(line@ =~= dump_line(dump_chunk(data@, k)));
        }
        let ghost entries = dump_entries(data@, addr_offset as nat, k);
        proof {
            assert(16 * k <= 16 * (len as nat / 16));
            if k == 0 {
                let chunk = dump_chunk(data@, 0);
                assert(chunk.len() > 0);
                assert(line@.len() > 0);
            }
        }
        if last_line == line {
            if !last_same {
                last_same = true;
                output.push(String::from_str("*"));
                proof {
                    reveal_strlit("*");
                }
            }
        } else {
            last_same = false;
            let mut text = String::new();
            push_number(&mut text, (addr + addr_offset) as u64, 16, false, 8);
            push_char(&mut text, ' ');
            text.append(line.as_str());
            output.push(text);
        }
        proof {
            let next = dump_entries(data@, addr_offset as nat, k + 1);
            assert(next == entries + dump_entry(data@, addr_offset as nat, k));
            assert(output@.len() == next.len());
            assert forall|i: int| 0 <= i < output@.len() implies #[trigger] output@[i]@ == next[i] by {
                if i < entries.len() {
                    assert(output@[i]@ == entries[i]);
                }
            }
        }
        last_line = line;
        addr = addr + 16;
        proof {
            k = k + 1;
        }
    }
    output
}

/// The entries of at least one line of non-empty data: there is one, every `*` follows a
/// printed line that is not itself a `*`, and the last entry is a `*` exactly while a run of
/// repeats is open.
proof fn lemma_dump_entries_stars(data: Seq<u8>, offset: nat, k: nat)
    requires
        data.len() > 0,
        1 <= k,
    ensures
        ({
            let out = dump_entries(data, offset, k);
            &&& out.len() >= 1
            &&& forall|i: int| 0 <= i < out.len() && #[trigger] out[i] == seq!['*'] ==> i > 0 && out[i - 1] != seq!['*']
            &&& repeats(data, (k - 1) as nat) <==> out.last() == seq!['*']
        }),
    decreases k,
{
    let out = dump_entries(data, offset, k);
    let prev = dump_entries(data, offset, (k - 1) as nat);
    let j = (k - 1) as nat;
    let shown = padded(digits(16 * j + offset, 16, false), 8, '0') + seq![' '] + nth_line(data, j);
    assert(shown.len() >= 9);
    assert(shown != seq!['*']) by {
        assert(seq!['*'].len() == 1);
    }
    assert(out == prev + dump_entry(data, offset, j));
    if k == 1 {
        assert(!repeats(data, 0));
        assert(out =~= seq![shown]);
    } else {
        lemma_dump_entries_stars(data, offset, (k - 1) as nat);
        assert forall|i: int| 0 <= i < out.len() && #[trigger] out[i] == seq!['*'] implies i > 0 && out[i - 1] != seq!['*'] by {
            if i < prev.len() {
                assert(out[i] == prev[i]);
                assert(out[i - 1] == prev[i - 1]);
            }
        }
    }
}

/// A `*` in a hex dump only ever stands for repeats of a line already printed: it is never the
/// first line, and never follows another `*`.
pub proof fn lemma_a_star_follows_a_printed_line(data: Seq<u8>, offset: nat)
    ensures
        forall|i: int| 0 <= i < dump_lines(data, offset).len() && #[trigger] dump_lines(data, offset)[i] == seq!['*']
            ==> i > 0 && dump_lines(data, offset)[i - 1] != seq!['*'],
{
    if data.len() > 0 {
        lemma_dump_entries_stars(data, offset, (data.len() / 16 + 1) as nat);
    }
}

} // verus!
