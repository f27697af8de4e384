//! Game Genie code parsing and encoding.
use vstd::prelude::*;
use vstd::string::*;
use crate::common::push_char;

verus! {

broadcast use vstd::string::is_ascii_spec_bytes;

/// The Game Genie alphabet, indexed by the nibble each letter stands for.
pub open spec fn genie_letters() -> Seq<char> {
    seq!['A', 'P', 'Z', 'L', 'G', 'I', 'T', 'Y', 'E', 'O', 'X', 'U', 'K', 'S', 'V', 'N']
}

/// `c` with an ASCII lowercase letter made uppercase.
pub open spec fn ascii_upper(c: char) -> char {
    if 'a' <= c && c <= 'z' { ((c as u32) - 32) as char } else { c }
}

/// The nibble a letter of a code stands for, ignoring case, or `None` outside the alphabet.
pub open spec fn nibble_of(c: char) -> Option<u8> {
    let u = ascii_upper(c);
    if exists|n: int| 0 <= n < 16 && genie_letters()[n] == u {
        Some((choose|n: int| 0 <= n < 16 && genie_letters()[n] == u) as u8)
    } else {
        None
    }
}

/// The letters that spell `hex`.
pub open spec fn letters_of(hex: Seq<u8>) -> Seq<char> {
    hex.map_values(|n: u8| genie_letters()[n as int])
}

/// The address a code's nibbles patch.
pub open spec fn decode_addr(hex: Seq<u8>) -> u16 {
    (0x8000u16 + (((hex[3] as u16 & 7) << 12u16) | ((hex[5] as u16 & 7) << 8u16) | ((hex[4] as u16 & 8) << 8u16)
        | ((hex[2] as u16 & 7) << 4u16) | ((hex[1] as u16 & 8) << 4u16) | (hex[4] as u16 & 7) | (hex[3] as u16 & 8))) as u16
}

/// The value a code's nibbles substitute; an eight-letter code keeps its bit 3 in the last one.
pub open spec fn decode_data(hex: Seq<u8>) -> u8 {
    let last = if hex.len() == 6 { hex[5] } else { hex[7] };
    ((hex[1] & 7) << 4u8) | ((hex[0] & 8) << 4u8) | (hex[0] & 7) | (last & 8)
}

/// The compare byte of an eight-letter code.
pub open spec fn decode_compare(hex: Seq<u8>) -> Option<u8> {
    if hex.len() == 8 {
        Some(((hex[7] & 7) << 4u8) | ((hex[6] & 8) << 4u8) | (hex[6] & 7) | (hex[5] & 8))
    } else {
        None
    }
}

/// The nibbles that encode a patch of `addr` (in `$8000..`) to `data`, with an optional compare.
pub open spec fn encode_nibbles(addr: u16, data: u8, compare: Option<u8>) -> Seq<u8> {
    let a = (addr - 0x8000) as u16;
    let d = data;
    let h0 = (d & 7) | ((d >> 4u8) & 8);
    let h1 = ((d >> 4u8) & 7) | (((a >> 4u16) & 8) as u8);
    let h2 = ((a >> 4u16) & 7) as u8;
    let h3 = (((a >> 12u16) & 7) | (a & 8)) as u8;
    let h4 = ((a & 7) | ((a >> 8u16) & 8)) as u8;
    let h5 = ((a >> 8u16) & 7) as u8;
    match compare {
        Some(c) => seq![h0, h1, h2, h3, h4, h5 | (c & 8), (c & 7) | ((c >> 4u8) & 8), ((c >> 4u8) & 7) | (d & 8)],
        None => seq![h0, h1, h2, h3, h4, h5 | (d & 8)],
    }
}

/// A string made uppercase the way ASCII defines it.
pub open spec fn upper_str(s: Seq<char>) -> Seq<char> {
    s.map_values(|c: char| ascii_upper(c))
}

/// Why a Game Genie code was rejected.
#[derive(Debug, Copy, Clone, PartialEq, Eq)]
pub enum ErrorKind {
    /// A code is 6 or 8 characters; this one was neither.
    InvalidLength(usize),
    /// A character outside the Game Genie alphabet.
    InvalidCharacter(char),
}

/// An invalid Game Genie code.
#[derive(Debug, Clone)]
pub struct Error {
    code: String,
    kind: ErrorKind,
}

impl Error {
    /// The code that was rejected.
    pub closed spec fn spec_code(&self) -> Seq<char> {
        self.code@
    }

    /// Why it was rejected.
    pub closed spec fn spec_kind(&self) -> ErrorKind {
        self.kind
    }

    fn new(code: &str, kind: ErrorKind) -> (e: Self)
        ensures
            e.spec_code() == code@,
            e.spec_kind() == kind,
    {
        Self { code: String::from_str(code), kind }
    }

    /// What was wrong with the code.
    pub fn kind(&self) -> (k: ErrorKind)
        ensures
            k == self.spec_kind(),
    {
        self.kind
    }

    /// The code that was rejected.
    pub fn code(&self) -> (c: &str)
        ensures
            c@ == self.spec_code(),
    {
        self.code.as_str()
    }
}

/// Makes ASCII lowercase letters uppercase, leaving every other character as it is.
fn to_ascii_uppercase(s: &str) -> (r: String)
    ensures
        r@ == upper_str(s@),
{
    let n = s.unicode_len();
    let mut r = String::new();
    let mut i: usize = 0;
    while i < n
        invariant
            n == s@.len(),
            i <= n,
            r@ == upper_str(s@.take(i as int)),
        decreases n - i,
    {
        let c = s.get_char(i);
        let u = if 'a' <= c && c <= 'z' { ((c as u8) - 32) as char } else { c };
        push_char(&mut r, u);
        proof {
            assert(upper_str(s@.take(i + 1)) =~= upper_str(s@.take(i as int)).push(ascii_upper(c)));
        }
        i = i + 1;
    }
    proof {
        assert(s@.take(n as int) =~= s@);
    }
    r
}

/// A Game Genie Code.
#[derive(Debug, Clone, PartialEq, Eq)]
pub struct GenieCode {
    code: String,
    addr: u16,
    data: u8,
    compare: Option<u8>,
}

impl GenieCode {
    /// The code's letters, uppercase.
    pub closed spec fn spec_code(&self) -> Seq<char> {
        self.code@
    }

    /// The address the code patches.
    pub closed spec fn spec_addr(&self) -> u16 {
        self.addr
    }

    /// The value the code substitutes.
    pub closed spec fn spec_data(&self) -> u8 {
        self.data
    }

    /// The compare byte of an eight-letter code.
    pub closed spec fn spec_compare(&self) -> Option<u8> {
        self.compare
    }

    /// Creates a `GenieCode` from a 6- or 8-letter Game Genie code.
    ///
    /// A 6-letter code replaces whatever is at its address, an 8-letter code only does so when
    /// the existing value matches its compare byte.
    pub fn new(code: String) -> (r: Result<Self, Error>)
        ensures
            match r {
                Ok(g) => {
                    &&& Self::parse_spec(code@) matches Ok(hex)
                    &&& g.spec_code() == upper_str(code@)
                    &&& g.spec_addr() == decode_addr(hex)
                    &&& g.spec_data() == decode_data(hex)
                    &&& g.spec_compare() == decode_compare(hex)
                },
                Err(e) => Self::parse_spec(code@) == Err::<Seq<u8>, ErrorKind>(e.spec_kind()) && e.spec_code() == code@,
            },
            r is Ok <==> Self::parse_spec(code@) is Ok,
    {
        let hex = match Self::parse(code.as_str()) {
            Ok(hex) => hex,
            Err(e) => return Err(e),
        };
        Ok(Self::from_raw(code, &hex))
    }

    /// The outcome of parsing `code`: its nibbles, or why it was refused. The length check
    /// counts bytes, as the string is stored.
    pub open spec fn parse_spec(code: Seq<char>) -> Result<Seq<u8>, ErrorKind> {
        let bytes = vstd::utf8::encode_utf8(code).len() as usize;
        if bytes != 6 && bytes != 8 {
            Err(ErrorKind::InvalidLength(bytes))
        } else if exists|i: int| 0 <= i < code.len() && nibble_of(code[i]) is None {
            let i = choose|i: int| 0 <= i < code.len() && nibble_of(code[i]) is None
                && forall|j: int| 0 <= j < i ==> nibble_of(code[j]) is Some;
            Err(ErrorKind::InvalidCharacter(code[i]))
        } else {
            Ok(code.map_values(|c: char| nibble_of(c)->0))
        }
    }

    /// The nibble `c` stands for, ignoring case.
    fn nibble(c: char) -> (n: Option<u8>)
        ensures
            n == nibble_of(c),
            n matches Some(v) ==> v < 16,
    {
        let u = if 'a' <= c && c <= 'z' { ((c as u32) - 32) as u8 as char } else { c };
        assert(u == ascii_upper(c));
        let n: Option<u8> = match u {
            'A' => Some(0x0),
            'P' => Some(0x1),
            'Z' => Some(0x2),
            'L' => Some(0x3),
            'G' => Some(0x4),
            'I' => Some(0x5),
            'T' => Some(0x6),
            'Y' => Some(0x7),
            'E' => Some(0x8),
            'O' => Some(0x9),
            'X' => Some(0xA),
            'U' => Some(0xB),
            'K' => Some(0xC),
            'S' => Some(0xD),
            'V' => Some(0xE),
            'N' => Some(0xF),
            _ => None,
        };
        proof {
            let l = genie_letters();
            if let Some(v) = n {
                assert(l[v as int] == u);
                assert(forall|m: int| 0 <= m < 16 && l[m] == u ==> m == v);
            } else {
                assert(forall|m: int| 0 <= m < 16 ==> l[m] != u);
            }
        }
        n
    }

    /// Decodes a code's characters into their nibble values.
    ///
    /// # Errors
    ///
    /// If the code is the wrong length or holds a character outside the alphabet.
    pub fn parse(code: &str) -> (r: Result<Vec<u8>, Error>)
        ensures
            match r {
                Ok(hex) => Self::parse_spec(code@) == Ok::<Seq<u8>, ErrorKind>(hex@),
                Err(e) => Self::parse_spec(code@) == Err::<Seq<u8>, ErrorKind>(e.spec_kind()) && e.spec_code() == code@,
            },
            r matches Ok(hex) ==> hex@.len() == 6 || hex@.len() == 8,
    {
        let bytes = code.len();
        if bytes != 6 && bytes != 8 {
            return Err(Error::new(code, ErrorKind::InvalidLength(bytes)));
        }
        let n = code.unicode_len();
        let mut hex: Vec<u8> = Vec::new();
        let mut i: usize = 0;
        while i < n
            invariant
                n == code@.len(),
                code.len() == 6 || code.len() == 8,
                i <= n,
                hex@.len() == i,
                forall|j: int| 0 <= j < i ==> nibble_of(#[trigger] code@[j]) == Some(hex@[j]),
            decreases n - i,
        {
            let c = code.get_char(i);
            match Self::nibble(c) {
                Some(h) => hex.push(h),
                None => {
                    proof {
                        let ii = i as int;
                        assert(0 <= ii < code@.len() && nibble_of(code@[ii]) is None
                            && forall|j: int| 0 <= j < ii ==> nibble_of(code@[j]) is Some);
                        let w = choose|k: int| 0 <= k < code@.len() && nibble_of(code@[k]) is None
                            && forall|j: int| 0 <= j < k ==> nibble_of(code@[j]) is Some;
                        assert(w == i as int) by {
                            if w < i {
                                assert(nibble_of(code@[w]) is Some);
                            } else if w > i {
                                assert(nibble_of(code@[i as int]) is Some);
                            }
                        }
                    }
                    return Err(Error::new(code, ErrorKind::InvalidCharacter(c)));
                },
            }
            i = i + 1;
        }
        proof {
            assert(hex@ =~= code@.map_values(|c: char| nibble_of(c)->0));
            lemma_parsed_code_is_ascii(code@);
        }
        Ok(hex)
    }

    /// Creates a new `GenieCode` from raw nibble values. The code is not checked against them;
    /// use [`GenieCode::parse`] to validate it.
    pub fn from_raw(code: String, hex: &[u8]) -> (g: Self)
        requires
            hex@.len() == 6 || hex@.len() >= 8,
        ensures
            g.spec_code() == upper_str(code@),
            g.spec_addr() == decode_addr(hex@),
            g.spec_data() == decode_data(hex@),
            g.spec_compare() == decode_compare(hex@),
    {
        proof {
            let (h1, h2, h3, h4, h5) = (hex[1] as u16, hex[2] as u16, hex[3] as u16, hex[4] as u16, hex[5] as u16);
            assert((((h3 & 7) << 12u16) | ((h5 & 7) << 8u16) | ((h4 & 8) << 8u16) | ((h2 & 7) << 4u16) | ((h1 & 8) << 4u16)
                | (h4 & 7) | (h3 & 8)) < 0x8000) by (bit_vector);
        }
        let addr = 0x8000u16 + (((hex[3] as u16 & 7) << 12) | ((hex[5] as u16 & 7) << 8) | ((hex[4] as u16 & 8) << 8)
            | ((hex[2] as u16 & 7) << 4) | ((hex[1] as u16 & 8) << 4) | (hex[4] as u16 & 7) | (hex[3] as u16 & 8));
        let data = if hex.len() == 6 {
            ((hex[1] & 7) << 4) | ((hex[0] & 8) << 4) | (hex[0] & 7) | (hex[5] & 8)
        } else {
            ((hex[1] & 7) << 4) | ((hex[0] & 8) << 4) | (hex[0] & 7) | (hex[7] & 8)
        };
        let compare = if hex.len() == 8 {
            Some(((hex[7] & 7) << 4) | ((hex[6] & 8) << 4) | (hex[6] & 7) | (hex[5] & 8))
        } else {
            None
        };
        Self { code: to_ascii_uppercase(code.as_str()), addr, data, compare }
    }

    /// The letter that spells nibble `n`.
    fn letter(n: u8) -> (s: &'static str)
        requires
            n < 16,
        ensures
            s@ == seq![genie_letters()[n as int]],
    {
        proof {
            reveal_strlit("A"); reveal_strlit("P"); reveal_strlit("Z"); reveal_strlit("L");
            reveal_strlit("G"); reveal_strlit("I"); reveal_strlit("T"); reveal_strlit("Y");
            reveal_strlit("E"); reveal_strlit("O"); reveal_strlit("X"); reveal_strlit("U");
            reveal_strlit("K"); reveal_strlit("S"); reveal_strlit("V"); reveal_strlit("N");
        }
        match n {
            0 => "A", 1 => "P", 2 => "Z", 3 => "L", 4 => "G", 5 => "I", 6 => "T", 7 => "Y",
            8 => "E", 9 => "O", 10 => "X", 11 => "U", 12 => "K", 13 => "S", 14 => "V", _ => "N",
        }
    }

    /// Builds the code that patches `addr` to `data`, or only when the byte already there is
    /// `compare`. `None` below `$8000`, which no code can reach.
    ///
    /// The letters are canonical rather than unique: a 6-letter code has one spare bit, in the
    /// third letter, which this leaves clear.
    pub fn encode(addr: u16, data: u8, compare: Option<u8>) -> (r: Option<Self>)
        ensures
            addr < 0x8000 <==> r is None,
            r matches Some(g) ==> {
                let hex = encode_nibbles(addr, data, compare);
                &&& g.spec_code() == letters_of(hex)
                &&& g.spec_addr() == addr
                &&& g.spec_data() == data
                &&& g.spec_compare() == compare
            },
    {
        if addr < 0x8000 {
            return None;
        }
        let a = addr - 0x8000;
        let d = data;
        let mut hex: Vec<u8> = Vec::new();
        hex.push((d & 7) | ((d >> 4) & 8));
        hex.push(((d >> 4) & 7) | (((a >> 4) & 8) as u8));
        hex.push(((a >> 4) & 7) as u8);
        hex.push((((a >> 12) & 7) | (a & 8)) as u8);
        hex.push(((a & 7) | ((a >> 8) & 8)) as u8);
        let h5 = ((a >> 8) & 7) as u8;
        match compare {
            Some(c) => {
                hex.push(h5 | (c & 8));
                hex.push((c & 7) | ((c >> 4) & 8));
                hex.push(((c >> 4) & 7) | (d & 8));
            },
            None => {
                hex.push(h5 | (d & 8));
            },
        }
        proof {
            assert(hex@ =~= encode_nibbles(addr, data, compare));
            lemma_nibbles_below_16(addr, data, compare);
        }
        let mut code = String::new();
        let mut i: usize = 0;
        while i < hex.len()
            invariant
                i <= hex@.len(),
                hex@ == encode_nibbles(addr, data, compare),
                forall|j: int| 0 <= j < hex@.len() ==> hex@[j] < 16,
                code@ == letters_of(hex@.subrange(0, i as int)),
            decreases hex@.len() - i,
        {
            let letter = Self::letter(hex[i]);
            code.append(letter);
            proof {
                assert(letters_of(hex@.subrange(0, i + 1)) =~= letters_of(hex@.subrange(0, i as int)) + seq![genie_letters()[hex@[i as int] as int]]);
            }
            i = i + 1;
        }
        proof {
            assert(hex@.subrange(0, hex@.len() as int) =~= hex@);
            lemma_letters_are_upper(hex@);
            lemma_decode_inverts_encode(addr, data, compare);
        }
        Some(Self::from_raw(code, hex.as_slice()))
    }

    /// The code as entered, uppercase.
    pub fn code(&self) -> (c: &str)
        ensures
            c@ == self.spec_code(),
    {
        self.code.as_str()
    }

    /// The CPU address the code patches.
    pub fn addr(&self) -> (a: u16)
        ensures
            a == self.spec_addr(),
    {
        self.addr
    }

    /// The value the code substitutes.
    pub fn data(&self) -> (d: u8)
        ensures
            d == self.spec_data(),
    {
        self.data
    }

    /// The byte the code requires to be there already, if it is an 8-letter code.
    pub fn compare(&self) -> (c: Option<u8>)
        ensures
            c == self.spec_compare(),
    {
        self.compare
    }

    /// Applies the code to a value read from its address, honouring the compare byte.
    pub fn read(&self, val: u8) -> (r: u8)
        ensures
            r == match self.spec_compare() {
                Some(c) => if val == c { self.spec_data() } else { val },
                None => self.spec_data(),
            },
    {
        if let Some(compare) = self.compare {
            if val == compare { self.data } else { val }
        } else {
            self.data
        }
    }
}

/// The bit arithmetic of a code: with `a` the offset into `$8000..` and `x` the byte whose bit 3
/// rides in the sixth letter (the compare byte, or the value itself in a 6-letter code), every
/// nibble indexes the alphabet and decoding puts each bit back where it came from.
proof fn lemma_code_bits(a: u16, d: u8, x: u8)
    by (bit_vector)
    requires
        a < 0x8000,
    ensures
        (d & 7) | ((d >> 4u8) & 8) < 16,
        ((d >> 4u8) & 7) | (((a >> 4u16) & 8) as u8) < 16,
        (((a >> 4u16) & 7) as u8) < 16,
        ((((a >> 12u16) & 7) | (a & 8)) as u8) < 16,
        (((a & 7) | ((a >> 8u16) & 8)) as u8) < 16,
        (((a >> 8u16) & 7) as u8 | (x & 8)) < 16,
        (x & 7) | ((x >> 4u8) & 8) < 16,
        ((x >> 4u8) & 7) | (d & 8) < 16,
        (0x8000u16 + (((((((a >> 12u16) & 7) | (a & 8)) as u8) as u16 & 7) << 12u16)
            | (((((a >> 8u16) & 7) as u8 | (x & 8)) as u16 & 7) << 8u16)
            | (((((a & 7) | ((a >> 8u16) & 8)) as u8) as u16 & 8) << 8u16)
            | (((((a >> 4u16) & 7) as u8) as u16 & 7) << 4u16)
            | ((((((d >> 4u8) & 7) | (((a >> 4u16) & 8) as u8))) as u16 & 8) << 4u16)
            | ((((a & 7) | ((a >> 8u16) & 8)) as u8) as u16 & 7)
            | (((((a >> 12u16) & 7) | (a & 8)) as u8) as u16 & 8))) as u16 == 0x8000u16 + a,
        ((((((d >> 4u8) & 7) | (((a >> 4u16) & 8) as u8))) & 7) << 4u8)
            | ((((d & 7) | ((d >> 4u8) & 8)) & 8) << 4u8)
            | (((d & 7) | ((d >> 4u8) & 8)) & 7)
            | ((((x >> 4u8) & 7) | (d & 8)) & 8) == d,
        (((((x >> 4u8) & 7) | (d & 8)) & 7) << 4u8)
            | ((((x & 7) | ((x >> 4u8) & 8)) & 8) << 4u8)
            | (((x & 7) | ((x >> 4u8) & 8)) & 7)
            | ((((a >> 8u16) & 7) as u8 | (x & 8)) & 8) == x,
        ((((((d >> 4u8) & 7) | (((a >> 4u16) & 8) as u8))) & 7) << 4u8)
            | ((((d & 7) | ((d >> 4u8) & 8)) & 8) << 4u8)
            | (((d & 7) | ((d >> 4u8) & 8)) & 7)
            | ((((a >> 8u16) & 7) as u8 | (d & 8)) & 8) == d,
{
}

/// Every nibble an encoding produces indexes the alphabet.
proof fn lemma_nibbles_below_16(addr: u16, data: u8, compare: Option<u8>)
    requires
        addr >= 0x8000,
    ensures
        forall|j: int| 0 <= j < encode_nibbles(addr, data, compare).len() ==> #[trigger] encode_nibbles(addr, data, compare)[j] < 16,
{
    let a = (addr - 0x8000) as u16;
    match compare {
        Some(c) => lemma_code_bits(a, data, c),
        None => lemma_code_bits(a, data, data),
    }
}

/// Decoding the nibbles of an encoding gives back the address, value and compare byte that were
/// encoded, for every address a code can reach.
pub proof fn lemma_decode_inverts_encode(addr: u16, data: u8, compare: Option<u8>)
    requires
        addr >= 0x8000,
    ensures
        decode_addr(encode_nibbles(addr, data, compare)) == addr,
        decode_data(encode_nibbles(addr, data, compare)) == data,
        decode_compare(encode_nibbles(addr, data, compare)) == compare,
        encode_nibbles(addr, data, compare).len() == (if compare is Some { 8int } else { 6int }),
{
    let a = (addr - 0x8000) as u16;
    assert(0x8000u16 + a == addr);
    match compare {
        Some(c) => lemma_code_bits(a, data, c),
        None => lemma_code_bits(a, data, data),
    }
}

/// The alphabet and the letter map are one table read both ways: each letter of the alphabet
/// stands for its own index, in either case.
pub proof fn lemma_alphabet_inverts_map(n: u8)
    requires
        n < 16,
    ensures
        nibble_of(genie_letters()[n as int]) == Some(n),
        'A' <= genie_letters()[n as int] <= 'Z',
{
    let l = genie_letters();
    let u = l[n as int];
    assert(ascii_upper(u) == u);
    assert(forall|m: int| 0 <= m < 16 && l[m] == u ==> m == n);
}

/// Spelling nibbles with the alphabet and parsing the letters gives the nibbles back.
pub proof fn lemma_letters_parse_back(hex: Seq<u8>)
    requires
        hex.len() == 6 || hex.len() == 8,
        forall|j: int| 0 <= j < hex.len() ==> hex[j] < 16,
    ensures
        GenieCode::parse_spec(letters_of(hex)) == Ok::<Seq<u8>, ErrorKind>(hex),
{
    let code = letters_of(hex);
    assert forall|j: int| 0 <= j < code.len() implies nibble_of(#[trigger] code[j]) == Some(hex[j])
        && '\0' <= code[j] <= '\u{7f}' by {
        lemma_alphabet_inverts_map(hex[j]);
    }
    assert(vstd::utf8::is_ascii_chars(code));
    vstd::utf8::is_ascii_chars_encode_utf8(code);
    assert(!exists|i: int| 0 <= i < code.len() && nibble_of(code[i]) is None);
    assert(code.map_values(|c: char| nibble_of(c)->0) =~= hex);
}

/// A code survives an encode and a decode: the letters [`GenieCode::encode`] spells parse back,
/// already uppercase, to the nibbles they were spelled from, which decode to the address, value
/// and compare byte that were encoded, so [`GenieCode::new`] on them rebuilds the same code.
pub proof fn lemma_an_encoded_code_decodes_to_itself(addr: u16, data: u8, compare: Option<u8>)
    requires
        addr >= 0x8000,
    ensures
        ({
            let hex = encode_nibbles(addr, data, compare);
            let code = letters_of(hex);
            &&& GenieCode::parse_spec(code) == Ok::<Seq<u8>, ErrorKind>(hex)
            &&& upper_str(code) == code
            &&& decode_addr(hex) == addr
            &&& decode_data(hex) == data
            &&& decode_compare(hex) == compare
            &&& code.len() == (if compare is Some { 8int } else { 6int })
        }),
{
    let hex = encode_nibbles(addr, data, compare);
    lemma_nibbles_below_16(addr, data, compare);
    lemma_decode_inverts_encode(addr, data, compare);
    lemma_letters_parse_back(hex);
    let code = letters_of(hex);
    assert forall|j: int| 0 <= j < code.len() implies #[trigger] ascii_upper(code[j]) == code[j] by {
        lemma_alphabet_inverts_map(hex[j]);
    }
    assert(upper_str(code) =~= code);
}

/// A 6-letter code is 24 bits carrying a 15-bit address and an 8-bit value, and the spare bit is
/// bit 3 of the third letter: changing it changes neither the address, the value nor the compare
/// byte.
pub proof fn lemma_third_letter_spare_bit(hex: Seq<u8>, h: u8)
    requires
        hex.len() == 6 || hex.len() == 8,
        h & 7 == hex[2] & 7,
    ensures
        decode_addr(hex.update(2, h)) == decode_addr(hex),
        decode_data(hex.update(2, h)) == decode_data(hex),
        decode_compare(hex.update(2, h)) == decode_compare(hex),
{
    let g = hex[2];
    assert((h as u16) & 7 == (g as u16) & 7) by (bit_vector)
        requires
            h & 7 == g & 7,
    ;
}

/// A code that parses is ASCII, so it has as many letters as bytes: 6 or 8.
proof fn lemma_parsed_code_is_ascii(code: Seq<char>)
    requires
        GenieCode::parse_spec(code) is Ok,
        code.len() <= usize::MAX,
    ensures
        code.len() == 6 || code.len() == 8,
        GenieCode::parse_spec(code)->Ok_0.len() == code.len(),
{
    assert forall|i: int| 0 <= i < code.len() implies '\0' <= #[trigger] code[i] <= '\u{7f}' by {
        let c = code[i];
        assert(nibble_of(c) is Some);
        let u = ascii_upper(c);
        let n = choose|n: int| 0 <= n < 16 && genie_letters()[n] == u;
        assert(genie_letters()[n] <= 'Z');
    }
    assert(vstd::utf8::is_ascii_chars(code));
    vstd::utf8::is_ascii_chars_encode_utf8(code);
}

/// The alphabet is uppercase, so spelling nibbles needs no case folding.
proof fn lemma_letters_are_upper(hex: Seq<u8>)
    requires
        forall|j: int| 0 <= j < hex.len() ==> hex[j] < 16,
    ensures
        upper_str(letters_of(hex)) == letters_of(hex),
{
    assert forall|j: int| 0 <= j < hex.len() implies ascii_upper(#[trigger] letters_of(hex)[j]) == letters_of(hex)[j] by {
        let n = hex[j] as int;
        assert(0 <= n < 16);
    }
    assert(upper_str(letters_of(hex)) =~= letters_of(hex));
}

} // verus!
