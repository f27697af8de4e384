//! Expressions over console state.
//!
//! A breakpoint condition and a watch ask the same question: read something off the console and
//! reduce it to a number. [`Expr::parse`] turns the text into a stack program with no strings
//! left in it, and [`Expr::eval`] runs that program against the CPU.
//!
//! Registers are `a`, `x`, `y`, `sp`, `pc` and `p`, status flags are `n`, `v`, `u`, `b`, `d`,
//! `i`, `z` and `c`, and memory is `mem[addr]` for a byte and `mem16[addr]` for a little-endian
//! word. Names are case-insensitive. Literals are `0x` hex, `0b` binary and decimal, plus `$`
//! hex. Operators, loosest first: `||`, `&&`, `==` `!=`, `<` `<=` `>` `>=`, then `!` and
//! parentheses.
use vstd::prelude::*;

use crate::common::push_char;
use crate::cpu::{Cpu, CpuView, Status};

verus! {

/// A CPU register an expression can name.
#[derive(Debug, Copy, Clone, PartialEq, Eq, Structural)]
pub enum Reg {
    A,
    X,
    Y,
    Sp,
    Pc,
    P,
}

/// How two values are compared.
#[derive(Debug, Copy, Clone, PartialEq, Eq, Structural)]
pub enum Comparison {
    Eq,
    Ne,
    Lt,
    Le,
    Gt,
    Ge,
}

/// One step of a compiled expression, in the order a stack machine runs them.
#[derive(Debug, Copy, Clone, PartialEq, Eq, Structural)]
pub enum Op {
    /// Push a constant.
    Push(i32),
    /// Push a register.
    Reg(Reg),
    /// Push a status flag as 0 or 1.
    Flag(u8),
    /// Replace the address on top with the byte at it.
    Peek8,
    /// Replace the address on top with the little-endian word at it.
    Peek16,
    /// Replace the top with 1 when it is zero, 0 otherwise.
    Not,
    /// Pop two and push the comparison.
    Compare(Comparison),
    /// Pop two and push 1 when both are non-zero.
    And,
    /// Pop two and push 1 when either is non-zero.
    Or,
}

/// Why an expression would not parse.
#[derive(Debug, Clone, PartialEq, Eq)]
pub enum ParseError {
    /// The expression ran out part way through.
    UnexpectedEnd,
    /// A character that starts nothing.
    Unexpected(String),
    /// A name that is not a register, a flag or a memory read.
    UnknownName(String),
    /// A bracket or paren with no partner.
    Expected(&'static str),
    /// A number too wide to hold.
    TooLarge(String),
    /// More nesting than the evaluation stack holds, or than parsing will follow.
    TooDeep,
}

/// Why an expression would not parse, with the text each reason names.
pub ghost enum ParseFail {
    UnexpectedEnd,
    Unexpected(Seq<char>),
    UnknownName(Seq<char>),
    Expected(Seq<char>),
    TooLarge(Seq<char>),
    TooDeep,
}

impl ParseError {
    /// The reason, with its text as characters.
    pub open spec fn fail(&self) -> ParseFail {
        match self {
            ParseError::UnexpectedEnd => ParseFail::UnexpectedEnd,
            ParseError::Unexpected(s) => ParseFail::Unexpected(s@),
            ParseError::UnknownName(s) => ParseFail::UnknownName(s@),
            ParseError::Expected(s) => ParseFail::Expected(s@),
            ParseError::TooLarge(s) => ParseFail::TooLarge(s@),
            ParseError::TooDeep => ParseFail::TooDeep,
        }
    }
}

/// Whether `c` has the Unicode `White_Space` property, as `char::is_whitespace` answers: the
/// ASCII tab, line feed, vertical tab, form feed, carriage return and space, next line, no-break
/// space, the Ogham space mark, the spaces from en quad to hair space, the line and paragraph
/// separators, the narrow no-break space, the medium mathematical space and the ideographic
/// space.
pub open spec fn white_space(c: char) -> bool {
    let u = c as u32;
    ||| 0x09 <= u <= 0x0D
    ||| u == 0x20
    ||| u == 0x85
    ||| u == 0xA0
    ||| u == 0x1680
    ||| 0x2000 <= u <= 0x200A
    ||| u == 0x2028
    ||| u == 0x2029
    ||| u == 0x202F
    ||| u == 0x205F
    ||| u == 0x3000
}

/// Whether `c` is whitespace, as `char::is_whitespace` answers.
fn is_whitespace(c: char) -> (b: bool)
    ensures
        b == white_space(c),
{
    let u = c as u32;
    (0x09 <= u && u <= 0x0D) || u == 0x20 || u == 0x85 || u == 0xA0 || u == 0x1680
        || (0x2000 <= u && u <= 0x200A) || u == 0x2028 || u == 0x2029 || u == 0x202F || u == 0x205F
        || u == 0x3000
}

/// The value of digit `c` in `radix` (2, 10 or 16), as `char::to_digit` reads it.
pub open spec fn digit_value(c: char, radix: u32) -> Option<nat> {
    let d: int = if '0' <= c && c <= '9' {
        c as int - '0' as int
    } else if 'a' <= c && c <= 'z' {
        c as int - 'a' as int + 10
    } else if 'A' <= c && c <= 'Z' {
        c as int - 'A' as int + 10
    } else {
        99
    };
    if d < radix { Some(d as nat) } else { None }
}

/// The number the digits `text` spell in `radix`.
pub open spec fn digits_value(text: Seq<char>, radix: u32) -> nat
    decreases text.len(),
{
    if text.len() == 0 {
        0
    } else {
        digits_value(text.drop_last(), radix) * (radix as nat) + match digit_value(text.last(), radix) {
            Some(d) => d,
            None => 0nat,
        }
    }
}

/// Whether `c` is an ASCII letter.
pub open spec fn ascii_alpha(c: char) -> bool {
    ('a' <= c && c <= 'z') || ('A' <= c && c <= 'Z')
}

/// Whether `c` is an ASCII letter or digit.
pub open spec fn ascii_alnum(c: char) -> bool {
    ascii_alpha(c) || ('0' <= c && c <= '9')
}

/// `c` with an ASCII uppercase letter made lowercase.
pub open spec fn ascii_lower(c: char) -> char {
    if 'A' <= c && c <= 'Z' { ((c as int) + 32) as char } else { c }
}

/// Where the first character at or after `at` that is not whitespace sits.
pub open spec fn skip_ws(c: Seq<char>, at: int) -> int
    decreases c.len() - at,
{
    if 0 <= at < c.len() && white_space(c[at]) { skip_ws(c, at + 1) } else { at }
}

/// Skipping whitespace moves forward, and no further than the end.
pub proof fn lemma_skip_ws(c: Seq<char>, at: int)
    ensures
        at <= skip_ws(c, at),
        at <= c.len() ==> skip_ws(c, at) <= c.len(),
        at < 0 || at > c.len() ==> skip_ws(c, at) == at,
    decreases c.len() - at,
{
    if 0 <= at < c.len() && white_space(c[at]) {
        lemma_skip_ws(c, at + 1);
    }
}

/// Whether `text` follows the whitespace after `at`, and where reading stands after looking:
/// past it if it was there, else past the whitespace.
pub open spec fn eat(c: Seq<char>, at: int, text: Seq<char>) -> (bool, int) {
    let p = skip_ws(c, at);
    if 0 <= p && p + text.len() <= c.len() && c.subrange(p, p + text.len()) == text {
        (true, p + text.len())
    } else {
        (false, p)
    }
}

/// Looking for text never moves reading back, finding it moves past it, and neither goes past
/// the end.
pub proof fn lemma_eat(c: Seq<char>, at: int, text: Seq<char>)
    requires
        0 <= at <= c.len(),
    ensures
        at <= eat(c, at, text).1 <= c.len(),
        eat(c, at, text).0 ==> eat(c, at, text).1 >= at + text.len(),
{
    lemma_skip_ws(c, at);
}

/// What a parsing rule gives: the steps it compiled and where reading stands, or why it failed.
pub type Parsed = Result<(Seq<Op>, int), ParseFail>;

/// `o` then `tail`'s steps, or `tail`'s failure.
pub open spec fn then(o: Seq<Op>, tail: Parsed) -> Parsed {
    match tail {
        Ok((o2, a)) => Ok((o + o2, a)),
        Err(e) => Err(e),
    }
}

/// `and` (`||` `and`)*
#[verifier::opaque]
pub open spec fn p_or(c: Seq<char>, at: int, n: int) -> Parsed
    decreases 65 - n, 17int, c.len() - at,
{
    match p_and(c, at, n) {
        Err(e) => Err(e),
        Ok((o, a)) => then(o, p_or_tail(c, a, n)),
    }
}

/// (`||` `and`)*
#[verifier::opaque]
pub open spec fn p_or_tail(c: Seq<char>, at: int, n: int) -> Parsed
    decreases 65 - n, 16int, c.len() - at,
{
    let (found, a1) = eat(c, at, seq!['|', '|']);
    if !found {
        Ok((Seq::empty(), a1))
    } else {
        match p_and(c, a1, n) {
            Err(e) => Err(e),
            Ok((o, a2)) => if a2 <= at || a2 > c.len() {
                Err(ParseFail::TooDeep)
            } else {
                then(o.push(Op::Or), p_or_tail(c, a2, n))
            },
        }
    }
}

/// `equality` (`&&` `equality`)*
#[verifier::opaque]
pub open spec fn p_and(c: Seq<char>, at: int, n: int) -> Parsed
    decreases 65 - n, 15int, c.len() - at,
{
    match p_equality(c, at, n) {
        Err(e) => Err(e),
        Ok((o, a)) => then(o, p_and_tail(c, a, n)),
    }
}

/// (`&&` `equality`)*
#[verifier::opaque]
pub open spec fn p_and_tail(c: Seq<char>, at: int, n: int) -> Parsed
    decreases 65 - n, 14int, c.len() - at,
{
    let (found, a1) = eat(c, at, seq!['&', '&']);
    if !found {
        Ok((Seq::empty(), a1))
    } else {
        match p_equality(c, a1, n) {
            Err(e) => Err(e),
            Ok((o, a2)) => if a2 <= at || a2 > c.len() {
                Err(ParseFail::TooDeep)
            } else {
                then(o.push(Op::And), p_and_tail(c, a2, n))
            },
        }
    }
}

/// `relational` ((`==` | `!=`) `relational`)*
#[verifier::opaque]
pub open spec fn p_equality(c: Seq<char>, at: int, n: int) -> Parsed
    decreases 65 - n, 13int, c.len() - at,
{
    match p_relational(c, at, n) {
        Err(e) => Err(e),
        Ok((o, a)) => then(o, p_eq_tail(c, a, n)),
    }
}

/// Which equality operator follows `at`, and where reading stands after looking.
#[verifier::opaque]
pub open spec fn eq_op(c: Seq<char>, at: int) -> (Option<Comparison>, int) {
    let (eq, a1) = eat(c, at, seq!['=', '=']);
    if eq {
        (Some(Comparison::Eq), a1)
    } else {
        let (ne, a2) = eat(c, a1, seq!['!', '=']);
        if ne { (Some(Comparison::Ne), a2) } else { (None, a2) }
    }
}

/// ((`==` | `!=`) `relational`)*
#[verifier::opaque]
pub open spec fn p_eq_tail(c: Seq<char>, at: int, n: int) -> Parsed
    decreases 65 - n, 12int, c.len() - at,
{
    let (found, a1) = eq_op(c, at);
    match found {
        None => Ok((Seq::empty(), a1)),
        Some(op) => match p_relational(c, a1, n) {
            Err(e) => Err(e),
            Ok((o, a2)) => if a2 <= at || a2 > c.len() {
                Err(ParseFail::TooDeep)
            } else {
                then(o.push(Op::Compare(op)), p_eq_tail(c, a2, n))
            },
        },
    }
}

/// `unary` ((`<=` | `>=` | `<` | `>`) `unary`)*
#[verifier::opaque]
pub open spec fn p_relational(c: Seq<char>, at: int, n: int) -> Parsed
    decreases 65 - n, 11int, c.len() - at,
{
    match p_unary(c, at, n) {
        Err(e) => Err(e),
        Ok((o, a)) => then(o, p_rel_tail(c, a, n)),
    }
}

/// Which ordering operator follows `at`, and where reading stands after looking. The two
/// character operators are tried first, so the longer one wins.
#[verifier::opaque]
pub open spec fn rel_op(c: Seq<char>, at: int) -> (Option<Comparison>, int) {
    let (le, a1) = eat(c, at, seq!['<', '=']);
    if le {
        (Some(Comparison::Le), a1)
    } else {
        let (ge, a2) = eat(c, a1, seq!['>', '=']);
        if ge {
            (Some(Comparison::Ge), a2)
        } else {
            let (lt, a3) = eat(c, a2, seq!['<']);
            if lt {
                (Some(Comparison::Lt), a3)
            } else {
                let (gt, a4) = eat(c, a3, seq!['>']);
                if gt { (Some(Comparison::Gt), a4) } else { (None, a4) }
            }
        }
    }
}

/// ((`<=` | `>=` | `<` | `>`) `unary`)*
#[verifier::opaque]
pub open spec fn p_rel_tail(c: Seq<char>, at: int, n: int) -> Parsed
    decreases 65 - n, 10int, c.len() - at,
{
    let (found, a1) = rel_op(c, at);
    match found {
        None => Ok((Seq::empty(), a1)),
        Some(op) => match p_unary(c, a1, n) {
            Err(e) => Err(e),
            Ok((o, a2)) => if a2 <= at || a2 > c.len() {
                Err(ParseFail::TooDeep)
            } else {
                then(o.push(Op::Compare(op)), p_rel_tail(c, a2, n))
            },
        },
    }
}

/// `!`* `primary`; a `!` followed by `=` belongs to `!=` instead.
#[verifier::opaque]
pub open spec fn p_unary(c: Seq<char>, at: int, n: int) -> Parsed
    decreases 65 - n, 9int, c.len() - at,
{
    let p = skip_ws(c, at);
    if 0 <= p < c.len() && c[p] == '!' && !(p + 1 < c.len() && c[p + 1] == '=') {
        proof {
            lemma_skip_ws(c, at);
        }
        match p_unary(c, p + 1, n) {
            Err(e) => Err(e),
            Ok((o, a)) => Ok((o.push(Op::Not), a)),
        }
    } else {
        p_primary(c, p, n)
    }
}

/// A primary, counted against [`Expr::MAX_NESTING`]: every way back into the grammar passes
/// here, so one count bounds the recursion whatever nests.
#[verifier::opaque]
pub open spec fn p_primary(c: Seq<char>, at: int, n: int) -> Parsed
    decreases 65 - n, 8int, c.len() - at,
{
    if n + 1 > 64 {
        Err(ParseFail::TooDeep)
    } else {
        p_primary_inner(c, at, n + 1)
    }
}

/// A number, a name, a parenthesized expression, or a memory read.
#[verifier::opaque]
pub open spec fn p_primary_inner(c: Seq<char>, at: int, n: int) -> Parsed
    decreases 65 - n, 20int, c.len() - at,
{
    let p = skip_ws(c, at);
    if !(0 <= p < c.len()) {
        Err(ParseFail::UnexpectedEnd)
    } else {
        let ch = c[p];
        let next: Option<char> = if p + 1 < c.len() { Some(c[p + 1]) } else { None };
        if ch == '(' {
            match p_or(c, p + 1, n) {
                Err(e) => Err(e),
                Ok((o, a)) => {
                    let (closed, a2) = eat(c, a, seq![')']);
                    if closed { Ok((o, a2)) } else { Err(ParseFail::Expected(seq![')'])) }
                },
            }
        } else if ch == '$' {
            p_number(c, p + 1, 16)
        } else if ch == '0' && (next == Some('x') || next == Some('X')) {
            p_number(c, p + 2, 16)
        } else if ch == '0' && (next == Some('b') || next == Some('B')) {
            p_number(c, p + 2, 2)
        } else if '0' <= ch && ch <= '9' {
            p_number(c, p, 10)
        } else if ascii_alpha(ch) {
            p_name(c, p, n)
        } else {
            Err(ParseFail::Unexpected(seq![ch]))
        }
    }
}

/// Where a run of digits in `radix` and `_` separators that starts at `at` ends.
pub open spec fn scan_digits(c: Seq<char>, at: int, radix: u32) -> int
    decreases c.len() - at,
{
    if 0 <= at < c.len() && (digit_value(c[at], radix) is Some || c[at] == '_') {
        scan_digits(c, at + 1, radix)
    } else {
        at
    }
}

/// `s` with its `_` separators dropped.
pub open spec fn without_separators(s: Seq<char>) -> Seq<char>
    decreases s.len(),
{
    if s.len() == 0 {
        s
    } else if s.last() == '_' {
        without_separators(s.drop_last())
    } else {
        without_separators(s.drop_last()).push(s.last())
    }
}

/// Digits in `radix`, at least one, with `_` allowed between them.
#[verifier::opaque]
pub open spec fn p_number(c: Seq<char>, at: int, radix: u32) -> Parsed {
    let end = scan_digits(c, at, radix);
    let text = without_separators(c.subrange(at, end));
    if text.len() == 0 {
        if 0 <= end < c.len() { Err(ParseFail::Unexpected(seq![c[end]])) } else { Err(ParseFail::UnexpectedEnd) }
    } else if digits_value(text, radix) > i32::MAX {
        Err(ParseFail::TooLarge(text))
    } else {
        Ok((seq![Op::Push(digits_value(text, radix) as i32)], end))
    }
}

/// Where a run of ASCII letters and digits that starts at `at` ends.
pub open spec fn scan_name(c: Seq<char>, at: int) -> int
    decreases c.len() - at,
{
    if 0 <= at < c.len() && ascii_alnum(c[at]) { scan_name(c, at + 1) } else { at }
}

/// The step a register or flag name compiles to, by its lowercase spelling.
#[verifier::opaque]
pub open spec fn name_op(lower: Seq<char>) -> Option<Op> {
    if lower == seq!['a'] {
        Some(Op::Reg(Reg::A))
    } else if lower == seq!['x'] {
        Some(Op::Reg(Reg::X))
    } else if lower == seq!['y'] {
        Some(Op::Reg(Reg::Y))
    } else if lower == seq!['s', 'p'] {
        Some(Op::Reg(Reg::Sp))
    } else if lower == seq!['p', 'c'] {
        Some(Op::Reg(Reg::Pc))
    } else if lower == seq!['p'] {
        Some(Op::Reg(Reg::P))
    } else if lower == seq!['n'] {
        Some(Op::Flag(Status::N))
    } else if lower == seq!['v'] {
        Some(Op::Flag(Status::V))
    } else if lower == seq!['u'] {
        Some(Op::Flag(Status::U))
    } else if lower == seq!['b'] {
        Some(Op::Flag(Status::B))
    } else if lower == seq!['d'] {
        Some(Op::Flag(Status::D))
    } else if lower == seq!['i'] {
        Some(Op::Flag(Status::I))
    } else if lower == seq!['z'] {
        Some(Op::Flag(Status::Z))
    } else if lower == seq!['c'] {
        Some(Op::Flag(Status::C))
    } else {
        None
    }
}

/// A register, a flag, or a memory read `mem[..]` / `mem16[..]`, in either case.
#[verifier::opaque]
pub open spec fn p_name(c: Seq<char>, at: int, n: int) -> Parsed
    decreases 65 - n, 19int, c.len() - at,
{
    let end = scan_name(c, at);
    let name = c.subrange(at, end);
    let lower = name.map_values(|ch: char| ascii_lower(ch));
    if lower == seq!['m', 'e', 'm'] || lower == seq!['m', 'e', 'm', '1', '6'] {
        let peek = if lower == seq!['m', 'e', 'm'] { Op::Peek8 } else { Op::Peek16 };
        let (opened, a1) = eat(c, end, seq!['[']);
        if !opened {
            Err(ParseFail::Expected(seq!['[']))
        } else {
            match p_or(c, a1, n) {
                Err(e) => Err(e),
                Ok((o, a2)) => {
                    let (closed, a3) = eat(c, a2, seq![']']);
                    if closed { Ok((o.push(peek), a3)) } else { Err(ParseFail::Expected(seq![']'])) }
                },
            }
        }
    } else {
        match name_op(lower) {
            Some(op) => Ok((seq![op], end)),
            None => Err(ParseFail::UnknownName(name)),
        }
    }
}

/// An expression compiled to a stack machine, plus the text it was written as.
///
/// Parsing happens once, when the expression is set; evaluation happens per access, so the
/// compiled form holds no strings and the stack is a fixed array.
#[derive(Debug, Clone, PartialEq, Eq)]
pub struct Expr {
    ops: Vec<Op>,
    source: String,
}

impl Expr {
    /// How deep the evaluation stack goes, which bounds how far an expression may nest.
    pub const MAX_DEPTH: usize = 16;

    /// How far the grammar may nest before parsing gives up.
    pub const MAX_NESTING: usize = 64;

    /// A note on how an expression is read, for a window to show under the grammar.
    pub const SYNTAX_NOTE: &'static str = "Names are case-insensitive. Anything other than zero is true.";

    /// The compiled steps.
    pub closed spec fn spec_ops(&self) -> Seq<Op> {
        self.ops@
    }

    /// The text the expression was written as, trimmed.
    pub closed spec fn spec_source(&self) -> Seq<char> {
        self.source@
    }

    /// The text the expression was written as, for a list to show.
    pub fn source(&self) -> (s: &str)
        ensures
            s@ == self.spec_source(),
    {
        self.source.as_str()
    }

    /// Whether the expression answers true or false rather than naming a number: the last step
    /// decides, and the comparisons and logical operators are the ones that come to 0 or 1.
    pub fn is_boolean(&self) -> (b: bool)
        ensures
            b == (self.spec_ops().len() > 0 && match self.spec_ops().last() {
                Op::Compare(_) | Op::And | Op::Or | Op::Not => true,
                _ => false,
            }),
    {
        let n = self.ops.len();
        if n == 0 {
            return false;
        }
        match self.ops[n - 1] {
            Op::Compare(_) | Op::And | Op::Or | Op::Not => true,
            _ => false,
        }
    }
}

/// How many values an op pops, and how many it pushes.
pub open spec fn stack_effect(op: Op) -> (int, int) {
    match op {
        Op::Push(_) | Op::Reg(_) | Op::Flag(_) => (0, 1),
        Op::Peek8 | Op::Peek16 | Op::Not => (1, 1),
        Op::Compare(_) | Op::And | Op::Or => (2, 1),
    }
}

/// How deep the parser reckons the stack after `ops`, popping no lower than empty.
pub open spec fn depth_of(ops: Seq<Op>) -> int
    decreases ops.len(),
{
    if ops.len() == 0 {
        0
    } else {
        let d = depth_of(ops.drop_last());
        let (pops, pushes) = stack_effect(ops.last());
        (if d >= pops { d - pops } else { 0 }) + pushes
    }
}

/// The deepest the parser reckons the stack gets over `ops`.
pub open spec fn max_depth_of(ops: Seq<Op>) -> int
    decreases ops.len(),
{
    if ops.len() == 0 {
        0
    } else {
        let m = max_depth_of(ops.drop_last());
        if depth_of(ops) > m { depth_of(ops) } else { m }
    }
}

/// The reckoning never exceeds the number of steps.
proof fn lemma_depth_bounded(ops: Seq<Op>)
    ensures
        0 <= depth_of(ops) <= ops.len(),
        0 <= max_depth_of(ops) <= ops.len(),
    decreases ops.len(),
{
    if ops.len() > 0 {
        lemma_depth_bounded(ops.drop_last());
    }
}

/// One step of `p_or_tail`: nothing when no operator follows, else the operand, the operator, and
/// the rest.
proof fn lemma_p_or_tail_step(c: Seq<char>, at: int, n: int)
    ensures
        eat(c, at, seq!['|', '|']).0 && p_and(c, eat(c, at, seq!['|', '|']).1, n) is Ok && !(at < p_and(c, eat(c, at, seq!['|', '|']).1, n)->Ok_0.1 <= c.len())
            ==> p_or_tail(c, at, n) == Err::<(Seq<Op>, int), ParseFail>(ParseFail::TooDeep),
        !eat(c, at, seq!['|', '|']).0 ==> p_or_tail(c, at, n) == Ok::<(Seq<Op>, int), ParseFail>((Seq::empty(), eat(c, at, seq!['|', '|']).1)),
        eat(c, at, seq!['|', '|']).0 && p_and(c, eat(c, at, seq!['|', '|']).1, n) is Err ==> p_or_tail(c, at, n) == p_and(c, eat(c, at, seq!['|', '|']).1, n),
        eat(c, at, seq!['|', '|']).0 && p_and(c, eat(c, at, seq!['|', '|']).1, n) is Ok && at < p_and(c, eat(c, at, seq!['|', '|']).1, n)->Ok_0.1 <= c.len()
            ==> p_or_tail(c, at, n) == then(p_and(c, eat(c, at, seq!['|', '|']).1, n)->Ok_0.0.push(Op::Or), p_or_tail(c, p_and(c, eat(c, at, seq!['|', '|']).1, n)->Ok_0.1, n)),
{
    reveal_with_fuel(p_or_tail, 2);
    reveal_with_fuel(p_and, 1);
}

/// One step of `p_or`: the first operand, then the tail.
proof fn lemma_p_or_step(c: Seq<char>, at: int, n: int)
    ensures
        p_or(c, at, n) == match p_and(c, at, n) {
            Err(e) => Err(e),
            Ok((o, a)) => then(o, p_or_tail(c, a, n)),
        },
{
    reveal_with_fuel(p_or, 2);
    reveal_with_fuel(p_and, 1);
    reveal_with_fuel(p_or_tail, 1);
}

/// One step of `p_and_tail`: nothing when no operator follows, else the operand, the operator, and
/// the rest.
proof fn lemma_p_and_tail_step(c: Seq<char>, at: int, n: int)
    ensures
        eat(c, at, seq!['&', '&']).0 && p_equality(c, eat(c, at, seq!['&', '&']).1, n) is Ok && !(at < p_equality(c, eat(c, at, seq!['&', '&']).1, n)->Ok_0.1 <= c.len())
            ==> p_and_tail(c, at, n) == Err::<(Seq<Op>, int), ParseFail>(ParseFail::TooDeep),
        !eat(c, at, seq!['&', '&']).0 ==> p_and_tail(c, at, n) == Ok::<(Seq<Op>, int), ParseFail>((Seq::empty(), eat(c, at, seq!['&', '&']).1)),
        eat(c, at, seq!['&', '&']).0 && p_equality(c, eat(c, at, seq!['&', '&']).1, n) is Err ==> p_and_tail(c, at, n) == p_equality(c, eat(c, at, seq!['&', '&']).1, n),
        eat(c, at, seq!['&', '&']).0 && p_equality(c, eat(c, at, seq!['&', '&']).1, n) is Ok && at < p_equality(c, eat(c, at, seq!['&', '&']).1, n)->Ok_0.1 <= c.len()
            ==> p_and_tail(c, at, n) == then(p_equality(c, eat(c, at, seq!['&', '&']).1, n)->Ok_0.0.push(Op::And), p_and_tail(c, p_equality(c, eat(c, at, seq!['&', '&']).1, n)->Ok_0.1, n)),
{
    reveal_with_fuel(p_and_tail, 2);
    reveal_with_fuel(p_equality, 1);
}

/// One step of `p_and`: the first operand, then the tail.
proof fn lemma_p_and_step(c: Seq<char>, at: int, n: int)
    ensures
        p_and(c, at, n) == match p_equality(c, at, n) {
            Err(e) => Err(e),
            Ok((o, a)) => then(o, p_and_tail(c, a, n)),
        },
{
    reveal_with_fuel(p_and, 2);
    reveal_with_fuel(p_equality, 1);
    reveal_with_fuel(p_and_tail, 1);
}

/// One step of `p_eq_tail`: nothing when no operator follows, else the operand, the operator, and
/// the rest.
proof fn lemma_p_eq_tail_step(c: Seq<char>, at: int, n: int)
    ensures
        eq_op(c, at).0 is Some && p_relational(c, eq_op(c, at).1, n) is Ok && !(at < p_relational(c, eq_op(c, at).1, n)->Ok_0.1 <= c.len())
            ==> p_eq_tail(c, at, n) == Err::<(Seq<Op>, int), ParseFail>(ParseFail::TooDeep),
        eq_op(c, at).0 is None ==> p_eq_tail(c, at, n) == Ok::<(Seq<Op>, int), ParseFail>((Seq::empty(), eq_op(c, at).1)),
        eq_op(c, at).0 is Some && p_relational(c, eq_op(c, at).1, n) is Err ==> p_eq_tail(c, at, n) == p_relational(c, eq_op(c, at).1, n),
        eq_op(c, at).0 is Some && p_relational(c, eq_op(c, at).1, n) is Ok && at < p_relational(c, eq_op(c, at).1, n)->Ok_0.1 <= c.len()
            ==> p_eq_tail(c, at, n) == then(p_relational(c, eq_op(c, at).1, n)->Ok_0.0.push(Op::Compare(eq_op(c, at).0->0)), p_eq_tail(c, p_relational(c, eq_op(c, at).1, n)->Ok_0.1, n)),
{
    reveal_with_fuel(p_eq_tail, 2);
    reveal_with_fuel(p_relational, 1);
    reveal(eq_op);
}

/// One step of `p_equality`: the first operand, then the tail.
proof fn lemma_p_equality_step(c: Seq<char>, at: int, n: int)
    ensures
        p_equality(c, at, n) == match p_relational(c, at, n) {
            Err(e) => Err(e),
            Ok((o, a)) => then(o, p_eq_tail(c, a, n)),
        },
{
    reveal_with_fuel(p_equality, 2);
    reveal_with_fuel(p_relational, 1);
    reveal_with_fuel(p_eq_tail, 1);
}

/// One step of `p_rel_tail`: nothing when no operator follows, else the operand, the operator, and
/// the rest.
proof fn lemma_p_rel_tail_step(c: Seq<char>, at: int, n: int)
    ensures
        rel_op(c, at).0 is Some && p_unary(c, rel_op(c, at).1, n) is Ok && !(at < p_unary(c, rel_op(c, at).1, n)->Ok_0.1 <= c.len())
            ==> p_rel_tail(c, at, n) == Err::<(Seq<Op>, int), ParseFail>(ParseFail::TooDeep),
        rel_op(c, at).0 is None ==> p_rel_tail(c, at, n) == Ok::<(Seq<Op>, int), ParseFail>((Seq::empty(), rel_op(c, at).1)),
        rel_op(c, at).0 is Some && p_unary(c, rel_op(c, at).1, n) is Err ==> p_rel_tail(c, at, n) == p_unary(c, rel_op(c, at).1, n),
        rel_op(c, at).0 is Some && p_unary(c, rel_op(c, at).1, n) is Ok && at < p_unary(c, rel_op(c, at).1, n)->Ok_0.1 <= c.len()
            ==> p_rel_tail(c, at, n) == then(p_unary(c, rel_op(c, at).1, n)->Ok_0.0.push(Op::Compare(rel_op(c, at).0->0)), p_rel_tail(c, p_unary(c, rel_op(c, at).1, n)->Ok_0.1, n)),
{
    reveal_with_fuel(p_rel_tail, 2);
    reveal_with_fuel(p_unary, 1);
    reveal(rel_op);
}

/// One step of `p_relational`: the first operand, then the tail.
proof fn lemma_p_relational_step(c: Seq<char>, at: int, n: int)
    ensures
        p_relational(c, at, n) == match p_unary(c, at, n) {
            Err(e) => Err(e),
            Ok((o, a)) => then(o, p_rel_tail(c, a, n)),
        },
{
    reveal_with_fuel(p_relational, 2);
    reveal_with_fuel(p_unary, 1);
    reveal_with_fuel(p_rel_tail, 1);
}

/// One unfolding of `p_unary`.
proof fn lemma_p_unary_step(c: Seq<char>, at: int, n: int)
    ensures
        p_unary(c, at, n) == {
            let p = skip_ws(c, at);
            if 0 <= p < c.len() && c[p] == '!' && !(p + 1 < c.len() && c[p + 1] == '=') {
                match p_unary(c, p + 1, n) {
                    Err(e) => Err(e),
                    Ok((o, a)) => Ok((o.push(Op::Not), a)),
                }
            } else {
                p_primary(c, p, n)
            }
        },
{
    reveal_with_fuel(p_unary, 2);
    reveal_with_fuel(p_primary, 1);
}

/// One unfolding of `p_primary`.
proof fn lemma_p_primary_step(c: Seq<char>, at: int, n: int)
    ensures
        p_primary(c, at, n) == {
            if n + 1 > 64 {
                Err(ParseFail::TooDeep)
            } else {
                p_primary_inner(c, at, n + 1)
            }
        },
{
    reveal_with_fuel(p_primary, 2);
    reveal_with_fuel(p_primary_inner, 1);
}

/// One unfolding of `p_primary_inner`.
proof fn lemma_p_primary_inner_step(c: Seq<char>, at: int, n: int)
    ensures
        p_primary_inner(c, at, n) == {
            let p = skip_ws(c, at);
            if !(0 <= p < c.len()) {
                Err(ParseFail::UnexpectedEnd)
            } else {
                let ch = c[p];
                let next: Option<char> = if p + 1 < c.len() { Some(c[p + 1]) } else { None };
                if ch == '(' {
                    match p_or(c, p + 1, n) {
                        Err(e) => Err(e),
                        Ok((o, a)) => {
                            let (closed, a2) = eat(c, a, seq![')']);
                            if closed { Ok((o, a2)) } else { Err(ParseFail::Expected(seq![')'])) }
                        },
                    }
                } else if ch == '$' {
                    p_number(c, p + 1, 16)
                } else if ch == '0' && (next == Some('x') || next == Some('X')) {
                    p_number(c, p + 2, 16)
                } else if ch == '0' && (next == Some('b') || next == Some('B')) {
                    p_number(c, p + 2, 2)
                } else if '0' <= ch && ch <= '9' {
                    p_number(c, p, 10)
                } else if ascii_alpha(ch) {
                    p_name(c, p, n)
                } else {
                    Err(ParseFail::Unexpected(seq![ch]))
                }
            }
        },
{
    reveal_with_fuel(p_primary_inner, 2);
    reveal_with_fuel(p_or, 1);
    reveal_with_fuel(p_name, 1);
}

/// One unfolding of `p_name`.
proof fn lemma_p_name_step(c: Seq<char>, at: int, n: int)
    ensures
        p_name(c, at, n) == {
            let end = scan_name(c, at);
            let name = c.subrange(at, end);
            let lower = name.map_values(|ch: char| ascii_lower(ch));
            if lower == seq!['m', 'e', 'm'] || lower == seq!['m', 'e', 'm', '1', '6'] {
                let peek = if lower == seq!['m', 'e', 'm'] { Op::Peek8 } else { Op::Peek16 };
                let (opened, a1) = eat(c, end, seq!['[']);
                if !opened {
                    Err(ParseFail::Expected(seq!['[']))
                } else {
                    match p_or(c, a1, n) {
                        Err(e) => Err(e),
                        Ok((o, a2)) => {
                            let (closed, a3) = eat(c, a2, seq![']']);
                            if closed { Ok((o.push(peek), a3)) } else { Err(ParseFail::Expected(seq![']'])) }
                        },
                    }
                }
            } else {
                match name_op(lower) {
                    Some(op) => Ok((seq![op], end)),
                    None => Err(ParseFail::UnknownName(name)),
                }
            }
        },
{
    reveal_with_fuel(p_name, 2);
    reveal_with_fuel(p_or, 1);
}

/// `a` then `b` then what `t` compiled is `a + b` then what `t` compiled.
proof fn lemma_then_assoc(a: Seq<Op>, b: Seq<Op>, t: Parsed)
    ensures
        then(a, then(b, t)) == then(a + b, t),
{
    match t {
        Ok((o, at)) => {
            assert(a + (b + o) =~= (a + b) + o);
        },
        Err(_) => {},
    }
}

/// The outcome of parsing the characters `c`: the compiled steps, or why not.
pub open spec fn parse_chars(c: Seq<char>) -> Result<Seq<Op>, ParseFail> {
    match p_or(c, 0, 0) {
        Err(e) => Err(e),
        Ok((o, a)) => {
            let p = skip_ws(c, a);
            if 0 <= p < c.len() {
                Err(ParseFail::Unexpected(seq![c[p]]))
            } else if max_depth_of(o) > 16 {
                Err(ParseFail::TooDeep)
            } else {
                Ok(o)
            }
        },
    }
}

/// Where the text before trailing whitespace ends, looking back from `end`.
pub open spec fn trim_end(s: Seq<char>, end: int) -> int
    decreases end,
{
    if 0 < end <= s.len() && white_space(s[end - 1]) { trim_end(s, end - 1) } else { end }
}

/// `s` without leading and trailing whitespace, as `str::trim` gives it.
pub open spec fn trimmed(s: Seq<char>) -> Seq<char> {
    let start = skip_ws(s, 0);
    if start >= s.len() { Seq::empty() } else { s.subrange(start, trim_end(s, s.len() as int)) }
}

/// A string of the characters `v`.
fn string_of(v: &Vec<char>, start: usize, end: usize) -> (s: String)
    requires
        start <= end <= v@.len(),
    ensures
        s@ == v@.subrange(start as int, end as int),
{
    let mut s = String::new();
    let mut i: usize = start;
    while i < end
        invariant
            start <= i <= end <= v@.len(),
            s@ == v@.subrange(start as int, i as int),
        decreases end - i,
    {
        push_char(&mut s, v[i]);
        proof {
            assert(v@.subrange(start as int, i + 1) =~= v@.subrange(start as int, i as int).push(v@[i as int]));
        }
        i = i + 1;
    }
    s
}

/// The value of digit `c` in `radix`, if it is one.
fn digit_of(c: char, radix: u32) -> (d: Option<u32>)
    requires
        radix == 2 || radix == 10 || radix == 16,
    ensures
        d matches Some(v) ==> digit_value(c, radix) == Some(v as nat) && v < radix,
        d is None ==> digit_value(c, radix) is None,
{
    let v: u32 = if '0' <= c && c <= '9' {
        (c as u32) - 48
    } else if 'a' <= c && c <= 'z' {
        (c as u32) - 97 + 10
    } else if 'A' <= c && c <= 'Z' {
        (c as u32) - 65 + 10
    } else {
        99
    };
    if v < radix { Some(v) } else { None }
}

/// Recursive descent over the characters, emitting the compiled form as it goes: each rule
/// emits its operands and then its operator.
struct Parser {
    chars: Vec<char>,
    at: usize,
    ops: Vec<Op>,
    depth: usize,
    max_depth: usize,
    /// How many primaries are being parsed right now. See [`Expr::MAX_NESTING`].
    nesting: usize,
}

impl Parser {
    /// The parser's bookkeeping: reading stands in the text, and the depth it reckons is the
    /// one its steps give.
    spec fn wf(&self) -> bool {
        &&& self.at <= self.chars@.len()
        &&& self.depth == depth_of(self.ops@)
        &&& self.max_depth == max_depth_of(self.ops@)
        &&& self.nesting <= 64
    }

    /// Emit `op` and track what it does to the stack.
    fn emit(&mut self, op: Op)
        requires
            old(self).wf(),
        ensures
            final(self).wf(),
            final(self).ops@ == old(self).ops@.push(op),
            final(self).chars@ == old(self).chars@,
            final(self).at == old(self).at,
            final(self).nesting == old(self).nesting,
    {
        proof {
            lemma_depth_bounded(self.ops@);
        }
        self.ops.push(op);
        let len = self.ops.len();
        let (pops, pushes): (usize, usize) = match op {
            Op::Push(_) | Op::Reg(_) | Op::Flag(_) => (0, 1),
            Op::Peek8 | Op::Peek16 | Op::Not => (1, 1),
            Op::Compare(_) | Op::And | Op::Or => (2, 1),
        };
        proof {
            assert(self.ops@.drop_last() =~= old(self).ops@);
        }
        self.depth = (if self.depth >= pops { self.depth - pops } else { 0 }) + pushes;
        if self.depth > self.max_depth {
            self.max_depth = self.depth;
        }
    }

    /// Skip whitespace.
    fn skip_space(&mut self)
        requires
            old(self).wf(),
        ensures
            final(self).wf(),
            final(self).at == skip_ws(old(self).chars@, old(self).at as int),
            final(self).chars@ == old(self).chars@,
            final(self).ops@ == old(self).ops@,
            final(self).nesting == old(self).nesting,
    {
        while self.at < self.chars.len() && is_whitespace(self.chars[self.at])
            invariant
                self.wf(),
                self.chars@ == old(self).chars@,
                self.ops@ == old(self).ops@,
                self.nesting == old(self).nesting,
                skip_ws(self.chars@, self.at as int) == skip_ws(old(self).chars@, old(self).at as int),
            decreases self.chars@.len() - self.at,
        {
            self.at = self.at + 1;
        }
    }

    /// Whether `text` follows, consuming it when it does; whitespace before it goes either way.
    fn eat(&mut self, text: &[char]) -> (found: bool)
        requires
            old(self).wf(),
        ensures
            final(self).wf(),
            (found, final(self).at as int) == eat(old(self).chars@, old(self).at as int, text@),
            final(self).chars@ == old(self).chars@,
            final(self).ops@ == old(self).ops@,
            final(self).nesting == old(self).nesting,
    {
        self.skip_space();
        let len = text.len();
        let clen = self.chars.len();
        if len > clen - self.at {
            return false;
        }
        let mut i: usize = 0;
        while i < len
            invariant
                self.wf(),
                clen == self.chars@.len(),
                self.chars@ == old(self).chars@,
                self.ops@ == old(self).ops@,
                self.nesting == old(self).nesting,
                self.at == skip_ws(old(self).chars@, old(self).at as int),
                len == text@.len(),
                self.at + len <= self.chars@.len(),
                i <= len,
                forall|j: int| 0 <= j < i ==> self.chars@[self.at + j] == text@[j],
            decreases len - i,
        {
            if self.chars[self.at + i] != text[i] {
                proof {
                    assert(self.chars@.subrange(self.at as int, self.at + len)[i as int] != text@[i as int]);
                }
                return false;
            }
            i = i + 1;
        }
        proof {
            assert(self.chars@.subrange(self.at as int, self.at + len) =~= text@);
        }
        self.at = self.at + len;
        true
    }

    /// Whether the character `a` follows, consuming it when it does.
    fn eat1(&mut self, a: char) -> (found: bool)
        requires
            old(self).wf(),
        ensures
            final(self).wf(),
            (found, final(self).at as int) == eat(old(self).chars@, old(self).at as int, seq![a]),
            final(self).chars@ == old(self).chars@,
            final(self).ops@ == old(self).ops@,
            final(self).nesting == old(self).nesting,
    {
        let text: [char; 1] = [a];
        assert(text@ =~= seq![a]);
        self.eat(&text)
    }

    /// Whether the characters `a` then `b` follow, consuming them when they do.
    fn eat2(&mut self, a: char, b: char) -> (found: bool)
        requires
            old(self).wf(),
        ensures
            final(self).wf(),
            (found, final(self).at as int) == eat(old(self).chars@, old(self).at as int, seq![a, b]),
            final(self).chars@ == old(self).chars@,
            final(self).ops@ == old(self).ops@,
            final(self).nesting == old(self).nesting,
    {
        let text: [char; 2] = [a, b];
        assert(text@ =~= seq![a, b]);
        self.eat(&text)
    }

    /// `and` (`||` `and`)*
    fn or(&mut self) -> (r: Result<(), ParseError>)
        requires
            old(self).wf(),
        ensures
            final(self).chars@ == old(self).chars@,
            old(self).nesting <= final(self).nesting <= old(self).nesting + 1,
            match p_or(old(self).chars@, old(self).at as int, old(self).nesting as int) {
                Ok((o, a)) => r is Ok && final(self).wf() && final(self).ops@ == old(self).ops@ + o
                    && final(self).at == a && old(self).at <= a && final(self).nesting == old(self).nesting,
                Err(e) => r matches Err(pe) && pe.fail() == e,
            },
        decreases 65 - self.nesting, 17int, self.chars@.len() - self.at,
    {
        let ghost c = self.chars@;
        let ghost n = self.nesting as int;
        let ghost at0 = self.at as int;
        let ghost start = self.ops@;
        proof {
            lemma_p_or_step(c, at0, n);
        }
        match self.and() {
            Ok(()) => {},
            Err(e) => return Err(e),
        }
        let ghost mut emitted: Seq<Op> = p_and(c, at0, n)->Ok_0.0;
        loop
            invariant
                self.wf(),
                self.chars@ == c,
                self.nesting == n,
                n == old(self).nesting,
                at0 == old(self).at,
                c == old(self).chars@,
                start == old(self).ops@,
                at0 <= self.at,
                self.ops@ == start + emitted,
                p_or(c, at0, n) == then(emitted, p_or_tail(c, self.at as int, n)),
            decreases self.chars@.len() - self.at,
        {
            let ghost before = self.at as int;
            proof {
                lemma_p_or_tail_step(c, before, n);
                lemma_eat(c, before, seq!['|', '|']);
            }
            if !self.eat2('|', '|') {
                proof {
                    assert(emitted + Seq::<Op>::empty() =~= emitted);
                }
                return Ok(());
            }
            let ghost a1 = self.at as int;
            match self.and() {
                Ok(()) => {},
                Err(e) => return Err(e),
            }
            let ghost o = p_and(c, a1, n)->Ok_0.0;
            let ghost a2 = self.at as int;
            self.emit(Op::Or);
            proof {
                lemma_then_assoc(emitted, o.push(Op::Or), p_or_tail(c, a2, n));
                assert(self.ops@ =~= start + (emitted + o.push(Op::Or)));
                emitted = emitted + o.push(Op::Or);
            }
        }
    }

    /// `equality` (`&&` `equality`)*
    fn and(&mut self) -> (r: Result<(), ParseError>)
        requires
            old(self).wf(),
        ensures
            final(self).chars@ == old(self).chars@,
            old(self).nesting <= final(self).nesting <= old(self).nesting + 1,
            match p_and(old(self).chars@, old(self).at as int, old(self).nesting as int) {
                Ok((o, a)) => r is Ok && final(self).wf() && final(self).ops@ == old(self).ops@ + o
                    && final(self).at == a && old(self).at <= a && final(self).nesting == old(self).nesting,
                Err(e) => r matches Err(pe) && pe.fail() == e,
            },
        decreases 65 - self.nesting, 15int, self.chars@.len() - self.at,
    {
        let ghost c = self.chars@;
        let ghost n = self.nesting as int;
        let ghost at0 = self.at as int;
        let ghost start = self.ops@;
        proof {
            lemma_p_and_step(c, at0, n);
        }
        match self.equality() {
            Ok(()) => {},
            Err(e) => return Err(e),
        }
        let ghost mut emitted: Seq<Op> = p_equality(c, at0, n)->Ok_0.0;
        loop
            invariant
                self.wf(),
                self.chars@ == c,
                self.nesting == n,
                n == old(self).nesting,
                at0 == old(self).at,
                c == old(self).chars@,
                start == old(self).ops@,
                at0 <= self.at,
                self.ops@ == start + emitted,
                p_and(c, at0, n) == then(emitted, p_and_tail(c, self.at as int, n)),
            decreases self.chars@.len() - self.at,
        {
            let ghost before = self.at as int;
            proof {
                lemma_p_and_tail_step(c, before, n);
                lemma_eat(c, before, seq!['|', '|']);
            }
            if !self.eat2('&', '&') {
                proof {
                    assert(emitted + Seq::<Op>::empty() =~= emitted);
                }
                return Ok(());
            }
            let ghost a1 = self.at as int;
            match self.equality() {
                Ok(()) => {},
                Err(e) => return Err(e),
            }
            let ghost o = p_equality(c, a1, n)->Ok_0.0;
            let ghost a2 = self.at as int;
            self.emit(Op::And);
            proof {
                lemma_then_assoc(emitted, o.push(Op::And), p_and_tail(c, a2, n));
                assert(self.ops@ =~= start + (emitted + o.push(Op::And)));
                emitted = emitted + o.push(Op::And);
            }
        }
    }

    /// `relational` ((`==` | `!=`) `relational`)*
    fn equality(&mut self) -> (r: Result<(), ParseError>)
        requires
            old(self).wf(),
        ensures
            final(self).chars@ == old(self).chars@,
            old(self).nesting <= final(self).nesting <= old(self).nesting + 1,
            match p_equality(old(self).chars@, old(self).at as int, old(self).nesting as int) {
                Ok((o, a)) => r is Ok && final(self).wf() && final(self).ops@ == old(self).ops@ + o
                    && final(self).at == a && old(self).at <= a && final(self).nesting == old(self).nesting,
                Err(e) => r matches Err(pe) && pe.fail() == e,
            },
        decreases 65 - self.nesting, 13int, self.chars@.len() - self.at,
    {
        let ghost c = self.chars@;
        let ghost n = self.nesting as int;
        let ghost at0 = self.at as int;
        let ghost start = self.ops@;
        proof {
            lemma_p_equality_step(c, at0, n);
        }
        match self.relational() {
            Ok(()) => {},
            Err(e) => return Err(e),
        }
        let ghost mut emitted: Seq<Op> = p_relational(c, at0, n)->Ok_0.0;
        loop
            invariant
                self.wf(),
                self.chars@ == c,
                self.nesting == n,
                n == old(self).nesting,
                at0 == old(self).at,
                c == old(self).chars@,
                start == old(self).ops@,
                at0 <= self.at,
                self.ops@ == start + emitted,
                p_equality(c, at0, n) == then(emitted, p_eq_tail(c, self.at as int, n)),
            decreases self.chars@.len() - self.at,
        {
            let ghost before = self.at as int;
            proof {
                lemma_p_eq_tail_step(c, before, n);
                lemma_eat(c, before, seq!['|', '|']);
            }
            let found = self.eq_op();
            let op = match found {
                Some(op) => op,
                None => {
                    proof {
                        assert(emitted + Seq::<Op>::empty() =~= emitted);
                    }
                    return Ok(());
                },
            };
            let ghost a1 = self.at as int;
            match self.relational() {
                Ok(()) => {},
                Err(e) => return Err(e),
            }
            let ghost o = p_relational(c, a1, n)->Ok_0.0;
            let ghost a2 = self.at as int;
            self.emit(Op::Compare(op));
            proof {
                lemma_then_assoc(emitted, o.push(Op::Compare(op)), p_eq_tail(c, a2, n));
                assert(self.ops@ =~= start + (emitted + o.push(Op::Compare(op))));
                emitted = emitted + o.push(Op::Compare(op));
            }
        }
    }

    /// `unary` ((`<=` | `>=` | `<` | `>`) `unary`)*
    fn relational(&mut self) -> (r: Result<(), ParseError>)
        requires
            old(self).wf(),
        ensures
            final(self).chars@ == old(self).chars@,
            old(self).nesting <= final(self).nesting <= old(self).nesting + 1,
            match p_relational(old(self).chars@, old(self).at as int, old(self).nesting as int) {
                Ok((o, a)) => r is Ok && final(self).wf() && final(self).ops@ == old(self).ops@ + o
                    && final(self).at == a && old(self).at <= a && final(self).nesting == old(self).nesting,
                Err(e) => r matches Err(pe) && pe.fail() == e,
            },
        decreases 65 - self.nesting, 11int, self.chars@.len() - self.at,
    {
        let ghost c = self.chars@;
        let ghost n = self.nesting as int;
        let ghost at0 = self.at as int;
        let ghost start = self.ops@;
        proof {
            lemma_p_relational_step(c, at0, n);
        }
        match self.unary() {
            Ok(()) => {},
            Err(e) => return Err(e),
        }
        let ghost mut emitted: Seq<Op> = p_unary(c, at0, n)->Ok_0.0;
        loop
            invariant
                self.wf(),
                self.chars@ == c,
                self.nesting == n,
                n == old(self).nesting,
                at0 == old(self).at,
                c == old(self).chars@,
                start == old(self).ops@,
                at0 <= self.at,
                self.ops@ == start + emitted,
                p_relational(c, at0, n) == then(emitted, p_rel_tail(c, self.at as int, n)),
            decreases self.chars@.len() - self.at,
        {
            let ghost before = self.at as int;
            proof {
                lemma_p_rel_tail_step(c, before, n);
                lemma_eat(c, before, seq!['|', '|']);
            }
            let found = self.rel_op();
            let op = match found {
                Some(op) => op,
                None => {
                    proof {
                        assert(emitted + Seq::<Op>::empty() =~= emitted);
                    }
                    return Ok(());
                },
            };
            let ghost a1 = self.at as int;
            match self.unary() {
                Ok(()) => {},
                Err(e) => return Err(e),
            }
            let ghost o = p_unary(c, a1, n)->Ok_0.0;
            let ghost a2 = self.at as int;
            self.emit(Op::Compare(op));
            proof {
                lemma_then_assoc(emitted, o.push(Op::Compare(op)), p_rel_tail(c, a2, n));
                assert(self.ops@ =~= start + (emitted + o.push(Op::Compare(op))));
                emitted = emitted + o.push(Op::Compare(op));
            }
        }
    }

    /// Which equality operator follows, consuming it.
    fn eq_op(&mut self) -> (found: Option<Comparison>)
        requires
            old(self).wf(),
        ensures
            final(self).wf(),
            (found, final(self).at as int) == eq_op(old(self).chars@, old(self).at as int),
            final(self).chars@ == old(self).chars@,
            final(self).ops@ == old(self).ops@,
            final(self).nesting == old(self).nesting,
            found is Some ==> final(self).at > old(self).at,
            final(self).at >= old(self).at,
    {
        proof { reveal(eq_op); }
        proof {
            lemma_eat(self.chars@, self.at as int, seq!['=', '=']);
        }
        if self.eat2('=', '=') {
            return Some(Comparison::Eq);
        }
        proof {
            lemma_eat(self.chars@, self.at as int, seq!['!', '=']);
        }
        if self.eat2('!', '=') {
            return Some(Comparison::Ne);
        }
        None
    }

    /// Which ordering operator follows, consuming it; the longer operators are tried first.
    fn rel_op(&mut self) -> (found: Option<Comparison>)
        requires
            old(self).wf(),
        ensures
            final(self).wf(),
            (found, final(self).at as int) == rel_op(old(self).chars@, old(self).at as int),
            final(self).chars@ == old(self).chars@,
            final(self).ops@ == old(self).ops@,
            final(self).nesting == old(self).nesting,
            found is Some ==> final(self).at > old(self).at,
            final(self).at >= old(self).at,
    {
        proof { reveal(rel_op); }
        proof {
            lemma_eat(self.chars@, self.at as int, seq!['<', '=']);
        }
        if self.eat2('<', '=') {
            return Some(Comparison::Le);
        }
        proof {
            lemma_eat(self.chars@, self.at as int, seq!['>', '=']);
        }
        if self.eat2('>', '=') {
            return Some(Comparison::Ge);
        }
        proof {
            lemma_eat(self.chars@, self.at as int, seq!['<']);
        }
        if self.eat1('<') {
            return Some(Comparison::Lt);
        }
        proof {
            lemma_eat(self.chars@, self.at as int, seq!['>']);
        }
        if self.eat1('>') {
            return Some(Comparison::Gt);
        }
        None
    }

    /// `!`* `primary`
    fn unary(&mut self) -> (r: Result<(), ParseError>)
        requires
            old(self).wf(),
        ensures
            final(self).chars@ == old(self).chars@,
            old(self).nesting <= final(self).nesting <= old(self).nesting + 1,
            match p_unary(old(self).chars@, old(self).at as int, old(self).nesting as int) {
                Ok((o, a)) => r is Ok && final(self).wf() && final(self).ops@ == old(self).ops@ + o
                    && final(self).at == a && old(self).at <= a && final(self).nesting == old(self).nesting,
                Err(e) => r matches Err(pe) && pe.fail() == e,
            },
        decreases 65 - self.nesting, 9int, self.chars@.len() - self.at,
    {
        proof { lemma_p_unary_step(self.chars@, self.at as int, self.nesting as int); }
        proof {
            lemma_skip_ws(self.chars@, self.at as int);
        }
        self.skip_space();
        let p = self.at;
        let len = self.chars.len();
        // Not `!=`, which belongs to `equality`.
        if p < len && self.chars[p] == '!' && !(p + 1 < len && self.chars[p + 1] == '=') {
            self.at = p + 1;
            let ghost mid = self.ops@;
            match self.unary() {
                Ok(()) => {},
                Err(e) => return Err(e),
            }
            let ghost o = self.ops@.subrange(mid.len() as int, self.ops@.len() as int);
            proof {
                assert(self.ops@ =~= mid + o);
            }
            self.emit(Op::Not);
            proof {
                assert(self.ops@ =~= old(self).ops@ + o.push(Op::Not));
            }
            return Ok(());
        }
        self.primary()
    }

    /// A primary, counted against [`Expr::MAX_NESTING`].
    fn primary(&mut self) -> (r: Result<(), ParseError>)
        requires
            old(self).wf(),
        ensures
            final(self).chars@ == old(self).chars@,
            old(self).nesting <= final(self).nesting <= old(self).nesting + 1,
            match p_primary(old(self).chars@, old(self).at as int, old(self).nesting as int) {
                Ok((o, a)) => r is Ok && final(self).wf() && final(self).ops@ == old(self).ops@ + o
                    && final(self).at == a && old(self).at <= a && final(self).nesting == old(self).nesting,
                Err(e) => r matches Err(pe) && pe.fail() == e,
            },
        decreases 65 - self.nesting, 8int, self.chars@.len() - self.at,
    {
        proof { lemma_p_primary_step(self.chars@, self.at as int, self.nesting as int); }
        self.nesting = self.nesting + 1;
        if self.nesting > Expr::MAX_NESTING {
            return Err(ParseError::TooDeep);
        }
        let result = self.primary_inner();
        self.nesting = self.nesting - 1;
        result
    }

    /// A number, a name, a parenthesized expression, or a memory read.
    fn primary_inner(&mut self) -> (r: Result<(), ParseError>)
        requires
            old(self).wf(),
        ensures
            final(self).chars@ == old(self).chars@,
            old(self).nesting <= final(self).nesting <= old(self).nesting + 1,
            match p_primary_inner(old(self).chars@, old(self).at as int, old(self).nesting as int) {
                Ok((o, a)) => r is Ok && final(self).wf() && final(self).ops@ == old(self).ops@ + o
                    && final(self).at == a && old(self).at <= a && final(self).nesting == old(self).nesting,
                Err(e) => r matches Err(pe) && pe.fail() == e,
            },
        decreases 65 - self.nesting, 20int, self.chars@.len() - self.at,
    {
        proof { lemma_p_primary_inner_step(self.chars@, self.at as int, self.nesting as int); }
        proof {
            lemma_skip_ws(self.chars@, self.at as int);
            reveal_strlit(")");
        }
        self.skip_space();
        let p = self.at;
        let len = self.chars.len();
        if p >= len {
            return Err(ParseError::UnexpectedEnd);
        }
        let ch = self.chars[p];
        let next: Option<char> = if p + 1 < len { Some(self.chars[p + 1]) } else { None };
        if ch == '(' {
            self.at = p + 1;
            let ghost mid = self.ops@;
            match self.or() {
                Ok(()) => {},
                Err(e) => return Err(e),
            }
            proof {
                lemma_eat(self.chars@, self.at as int, seq![')']);
                assert(")"@ =~= seq![')']);
            }
            if !self.eat1(')') {
                return Err(ParseError::Expected(")"));
            }
            Ok(())
        } else if ch == '$' {
            self.at = p + 1;
            self.number(16)
        } else if ch == '0' && (next == Some('x') || next == Some('X')) {
            self.at = p + 2;
            self.number(16)
        } else if ch == '0' && (next == Some('b') || next == Some('B')) {
            self.at = p + 2;
            self.number(2)
        } else if '0' <= ch && ch <= '9' {
            self.number(10)
        } else if ('a' <= ch && ch <= 'z') || ('A' <= ch && ch <= 'Z') {
            self.name()
        } else {
            let mut text = String::new();
            push_char(&mut text, ch);
            Err(ParseError::Unexpected(text))
        }
    }

    /// Digits in `radix`, at least one, with `_` allowed between them.
    fn number(&mut self, radix: u32) -> (r: Result<(), ParseError>)
        requires
            old(self).wf(),
            radix == 2 || radix == 10 || radix == 16,
        ensures
            final(self).chars@ == old(self).chars@,
            final(self).nesting == old(self).nesting,
            match p_number(old(self).chars@, old(self).at as int, radix) {
                Ok((o, a)) => r is Ok && final(self).wf() && final(self).ops@ == old(self).ops@ + o
                    && final(self).at == a && old(self).at <= a,
                Err(e) => r matches Err(pe) && pe.fail() == e,
            },
    {
        proof { reveal(p_number); }
        let ghost c = self.chars@;
        let len = self.chars.len();
        let start = self.at;
        while self.at < len && (digit_of(self.chars[self.at], radix).is_some() || self.chars[self.at] == '_')
            invariant
                self.wf(),
                len == self.chars@.len(),
                self.chars@ == c,
                c == old(self).chars@,
                self.ops@ == old(self).ops@,
                self.nesting == old(self).nesting,
                start == old(self).at,
                start <= self.at,
                radix == 2 || radix == 10 || radix == 16,
                scan_digits(c, self.at as int, radix) == scan_digits(c, start as int, radix),
                forall|j: int| start <= j < self.at ==> (digit_value(#[trigger] c[j], radix) is Some || c[j] == '_'),
            decreases len - self.at,
        {
            self.at = self.at + 1;
        }
        let end = self.at;
        let mut text: Vec<char> = Vec::new();
        let mut value: u64 = 0;
        let mut big = false;
        let mut i: usize = start;
        while i < end
            invariant
                self.chars@ == c,
                start <= i <= end <= c.len(),
                radix == 2 || radix == 10 || radix == 16,
                forall|j: int| start <= j < end ==> (digit_value(#[trigger] c[j], radix) is Some || c[j] == '_'),
                text@ == without_separators(c.subrange(start as int, i as int)),
                big == (digits_value(text@, radix) > i32::MAX),
                !big ==> value == digits_value(text@, radix),
                value <= i32::MAX,
            decreases end - i,
        {
            let ch = self.chars[i];
            proof {
                assert(c.subrange(start as int, i + 1).drop_last() =~= c.subrange(start as int, i as int));
            }
            if ch != '_' {
                let d = match digit_of(ch, radix) {
                    Some(d) => d,
                    None => 0,
                };
                let ghost before = text@;
                text.push(ch);
                proof {
                    assert(text@.drop_last() =~= before);
                    let dv = digits_value(before, radix);
                    assert(dv * radix >= dv) by (nonlinear_arith)
                        requires
                            radix >= 1,
                    ;
                }
                if !big {
                    let nv = value * (radix as u64) + (d as u64);
                    if nv > 0x7FFF_FFFF {
                        big = true;
                    } else {
                        value = nv;
                    }
                }
            }
            i = i + 1;
        }
        if text.len() == 0 {
            if end < len {
                let mut t = String::new();
                push_char(&mut t, self.chars[end]);
                return Err(ParseError::Unexpected(t));
            }
            return Err(ParseError::UnexpectedEnd);
        }
        if big {
            let n = text.len();
            proof {
                assert(text@.subrange(0, n as int) =~= text@);
            }
            return Err(ParseError::TooLarge(string_of(&text, 0, n)));
        }
        self.emit(Op::Push(value as i32));
        proof {
            assert(self.ops@ =~= old(self).ops@ + seq![Op::Push(digits_value(text@, radix) as i32)]);
        }
        Ok(())
    }

    /// The step a lowercase register or flag name compiles to.
    fn name_op(lower: &Vec<char>) -> (op: Option<Op>)
        ensures
            op == name_op(lower@),
    {
        proof { reveal(name_op); }
        let n = lower.len();
        if n == 1 {
            let c0 = lower[0];
            proof {
                assert(lower@ =~= seq![c0]);
            }
            match c0 {
                'a' => Some(Op::Reg(Reg::A)),
                'x' => Some(Op::Reg(Reg::X)),
                'y' => Some(Op::Reg(Reg::Y)),
                'p' => Some(Op::Reg(Reg::P)),
                'n' => Some(Op::Flag(Status::N)),
                'v' => Some(Op::Flag(Status::V)),
                'u' => Some(Op::Flag(Status::U)),
                'b' => Some(Op::Flag(Status::B)),
                'd' => Some(Op::Flag(Status::D)),
                'i' => Some(Op::Flag(Status::I)),
                'z' => Some(Op::Flag(Status::Z)),
                'c' => Some(Op::Flag(Status::C)),
                _ => None,
            }
        } else if n == 2 {
            let c0 = lower[0];
            let c1 = lower[1];
            proof {
                assert(lower@ =~= seq![c0, c1]);
            }
            if c0 == 's' && c1 == 'p' {
                Some(Op::Reg(Reg::Sp))
            } else if c0 == 'p' && c1 == 'c' {
                Some(Op::Reg(Reg::Pc))
            } else {
                proof {
                    assert(seq![c0, c1] != seq!['s', 'p']) by {
                        if seq![c0, c1] == seq!['s', 'p'] {
                            assert(seq![c0, c1][0] == 's');
                            assert(seq![c0, c1][1] == 'p');
                        }
                    }
                    assert(seq![c0, c1] != seq!['p', 'c']) by {
                        if seq![c0, c1] == seq!['p', 'c'] {
                            assert(seq![c0, c1][0] == 'p');
                            assert(seq![c0, c1][1] == 'c');
                        }
                    }
                }
                None
            }
        } else {
            None
        }
    }

    /// Whether `lower` spells `mem`, and whether it spells `mem16`.
    fn mem_name(lower: &Vec<char>) -> (r: (bool, bool))
        ensures
            r.0 == (lower@ == seq!['m', 'e', 'm']),
            r.1 == (lower@ == seq!['m', 'e', 'm', '1', '6']),
    {
        let n = lower.len();
        if n == 3 {
            let w = lower[0] == 'm' && lower[1] == 'e' && lower[2] == 'm';
            proof {
                assert(lower@ =~= seq![lower@[0], lower@[1], lower@[2]]);
                if lower@ == seq!['m', 'e', 'm'] {
                    assert(lower@[0] == 'm' && lower@[1] == 'e' && lower@[2] == 'm');
                }
            }
            (w, false)
        } else if n == 5 {
            let w = lower[0] == 'm' && lower[1] == 'e' && lower[2] == 'm' && lower[3] == '1' && lower[4] == '6';
            proof {
                assert(lower@ =~= seq![lower@[0], lower@[1], lower@[2], lower@[3], lower@[4]]);
                if lower@ == seq!['m', 'e', 'm', '1', '6'] {
                    assert(lower@[0] == 'm' && lower@[1] == 'e' && lower@[2] == 'm' && lower@[3] == '1' && lower@[4] == '6');
                }
            }
            (false, w)
        } else {
            (false, false)
        }
    }

    /// A register or a flag, either case, or a memory read.
    fn name(&mut self) -> (r: Result<(), ParseError>)
        requires
            old(self).wf(),
        ensures
            final(self).chars@ == old(self).chars@,
            old(self).nesting <= final(self).nesting <= old(self).nesting + 1,
            match p_name(old(self).chars@, old(self).at as int, old(self).nesting as int) {
                Ok((o, a)) => r is Ok && final(self).wf() && final(self).ops@ == old(self).ops@ + o
                    && final(self).at == a && old(self).at <= a && final(self).nesting == old(self).nesting,
                Err(e) => r matches Err(pe) && pe.fail() == e,
            },
        decreases 65 - self.nesting, 19int, self.chars@.len() - self.at,
    {
        proof { lemma_p_name_step(self.chars@, self.at as int, self.nesting as int); }
        proof {
            reveal_strlit("[");
            reveal_strlit("]");
        }
        let ghost c = self.chars@;
        let len = self.chars.len();
        let start = self.at;
        while self.at < len && (('a' <= self.chars[self.at] && self.chars[self.at] <= 'z')
            || ('A' <= self.chars[self.at] && self.chars[self.at] <= 'Z')
            || ('0' <= self.chars[self.at] && self.chars[self.at] <= '9'))
            invariant
                self.wf(),
                len == self.chars@.len(),
                self.chars@ == c,
                c == old(self).chars@,
                self.ops@ == old(self).ops@,
                self.nesting == old(self).nesting,
                start == old(self).at,
                start <= self.at,
                scan_name(c, self.at as int) == scan_name(c, start as int),
            decreases len - self.at,
        {
            self.at = self.at + 1;
        }
        let end = self.at;
        let mut lower: Vec<char> = Vec::new();
        let mut i: usize = start;
        while i < end
            invariant
                self.chars@ == c,
                start <= i <= end <= c.len(),
                lower@ == c.subrange(start as int, i as int).map_values(|ch: char| ascii_lower(ch)),
            decreases end - i,
        {
            let ch = self.chars[i];
            let l = if 'A' <= ch && ch <= 'Z' { ((ch as u8) + 32) as char } else { ch };
            lower.push(l);
            proof {
                assert(lower@ =~= c.subrange(start as int, i + 1).map_values(|ch: char| ascii_lower(ch)));
            }
            i = i + 1;
        }
        let (is_mem, is_mem16) = Self::mem_name(&lower);
        if is_mem || is_mem16 {
            let peek = if is_mem { Op::Peek8 } else { Op::Peek16 };
            proof {
                assert("["@ =~= seq!['[']);
                assert("]"@ =~= seq![']']);
            }
            if !self.eat1('[') {
                return Err(ParseError::Expected("["));
            }
            proof {
                lemma_skip_ws(c, end as int);
            }
            let ghost mid = self.ops@;
            match self.or() {
                Ok(()) => {},
                Err(e) => return Err(e),
            }
            let ghost o = self.ops@.subrange(mid.len() as int, self.ops@.len() as int);
            proof {
                assert(self.ops@ =~= mid + o);
            }
            proof {
                lemma_eat(self.chars@, self.at as int, seq![']']);
            }
            if !self.eat1(']') {
                return Err(ParseError::Expected("]"));
            }
            self.emit(peek);
            proof {
                assert(self.ops@ =~= old(self).ops@ + o.push(peek));
            }
            return Ok(());
        }
        match Self::name_op(&lower) {
            Some(op) => {
                self.emit(op);
                proof {
                    assert(self.ops@ =~= old(self).ops@ + seq![op]);
                }
                Ok(())
            },
            None => Err(ParseError::UnknownName(string_of(&self.chars, start, end))),
        }
    }

}

/// `source` without leading and trailing whitespace, as `str::trim` gives it.
fn trim(source: &str) -> (t: String)
    ensures
        t@ == trimmed(source@),
{
    let n = source.unicode_len();
    let mut a: usize = 0;
    while a < n && is_whitespace(source.get_char(a))
        invariant
            n == source@.len(),
            a <= n,
            skip_ws(source@, a as int) == skip_ws(source@, 0),
        decreases n - a,
    {
        a = a + 1;
    }
    if a >= n {
        return String::new();
    }
    let mut e: usize = n;
    while e > 0 && is_whitespace(source.get_char(e - 1))
        invariant
            n == source@.len(),
            a < n,
            skip_ws(source@, 0) == a,
            !white_space(source@[a as int]),
            a < e <= n,
            trim_end(source@, e as int) == trim_end(source@, n as int),
        decreases e,
    {
        e = e - 1;
    }
    let mut t = String::new();
    let mut i: usize = a;
    while i < e
        invariant
            n == source@.len(),
            a <= i <= e <= n,
            t@ == source@.subrange(a as int, i as int),
        decreases e - i,
    {
        push_char(&mut t, source.get_char(i));
        proof {
            assert(source@.subrange(a as int, i + 1) =~= source@.subrange(a as int, i as int).push(source@[i as int]));
        }
        i = i + 1;
    }
    t
}

impl Expr {
    /// Parse `source`, reporting what stopped it.
    ///
    /// # Errors
    ///
    /// If `source` is not an expression, nests deeper than [`Expr::MAX_NESTING`], or needs a
    /// deeper evaluation stack than [`Expr::MAX_DEPTH`].
    pub fn parse(source: &str) -> (r: Result<Expr, ParseError>)
        ensures
            match parse_chars(source@) {
                Ok(ops) => r matches Ok(e) && e.spec_ops() == ops && e.spec_source() == trimmed(source@),
                Err(f) => r matches Err(pe) && pe.fail() == f,
            },
    {
        let n = source.unicode_len();
        let mut chars: Vec<char> = Vec::new();
        let mut i: usize = 0;
        while i < n
            invariant
                n == source@.len(),
                i <= n,
                chars@ == source@.take(i as int),
            decreases n - i,
        {
            chars.push(source.get_char(i));
            proof {
                assert(chars@ =~= source@.take(i + 1));
            }
            i = i + 1;
        }
        proof {
            assert(chars@ =~= source@);
        }
        let mut parser = Parser { chars, at: 0, ops: Vec::new(), depth: 0, max_depth: 0, nesting: 0 };
        proof {
            assert(parser.ops@ =~= Seq::<Op>::empty());
        }
        match parser.or() {
            Ok(()) => {},
            Err(e) => return Err(e),
        }
        proof {
            assert(parser.ops@ =~= p_or(source@, 0, 0)->Ok_0.0);
        }
        parser.skip_space();
        if parser.at < parser.chars.len() {
            let mut text = String::new();
            push_char(&mut text, parser.chars[parser.at]);
            return Err(ParseError::Unexpected(text));
        }
        if parser.max_depth > Self::MAX_DEPTH {
            return Err(ParseError::TooDeep);
        }
        Ok(Expr { ops: parser.ops, source: trim(source) })
    }
}

/// The value register `r` holds.
pub open spec fn reg_value(r: Reg, cpu: CpuView) -> i32 {
    match r {
        Reg::A => cpu.acc as i32,
        Reg::X => cpu.x as i32,
        Reg::Y => cpu.y as i32,
        Reg::Sp => cpu.sp as i32,
        Reg::Pc => cpu.pc as i32,
        Reg::P => cpu.status as i32,
    }
}

/// Whether `lhs` and `rhs` compare as `how` asks.
pub open spec fn compares(how: Comparison, lhs: i32, rhs: i32) -> bool {
    match how {
        Comparison::Eq => lhs == rhs,
        Comparison::Ne => lhs != rhs,
        Comparison::Lt => lhs < rhs,
        Comparison::Le => lhs <= rhs,
        Comparison::Gt => lhs > rhs,
        Comparison::Ge => lhs >= rhs,
    }
}

/// 1 for true, 0 for false.
pub open spec fn truth(b: bool) -> i32 {
    if b { 1 } else { 0 }
}

/// The fixed evaluation stack after pushing `v`: a push past the top is dropped.
pub open spec fn stack_push(slots: Seq<i32>, top: int, v: i32) -> (Seq<i32>, int) {
    if top < 16 { (slots.update(top, v), top + 1) } else { (slots, top) }
}

/// Where the top of the fixed stack stands after a pop: a pop past the bottom reads slot 0.
pub open spec fn popped(top: int) -> int {
    if top > 0 { top - 1 } else { 0 }
}

/// The fixed evaluation stack after running one step against `cpu`.
pub open spec fn run_step(op: Op, slots: Seq<i32>, top: int, cpu: CpuView) -> (Seq<i32>, int) {
    match op {
        Op::Push(v) => stack_push(slots, top, v),
        Op::Reg(r) => stack_push(slots, top, reg_value(r, cpu)),
        Op::Flag(f) => stack_push(slots, top, truth(cpu.flag(f))),
        Op::Peek8 => {
            let t = popped(top);
            stack_push(slots, t, cpu.at(slots[t] as u16) as i32)
        },
        Op::Peek16 => {
            let t = popped(top);
            stack_push(slots, t, cpu.word_at(slots[t] as u16) as i32)
        },
        Op::Not => {
            let t = popped(top);
            stack_push(slots, t, truth(slots[t] == 0))
        },
        Op::Compare(how) => {
            let t1 = popped(top);
            let t2 = popped(t1);
            stack_push(slots, t2, truth(compares(how, slots[t2], slots[t1])))
        },
        Op::And => {
            let t1 = popped(top);
            let t2 = popped(t1);
            stack_push(slots, t2, truth(slots[t2] != 0 && slots[t1] != 0))
        },
        Op::Or => {
            let t1 = popped(top);
            let t2 = popped(t1);
            stack_push(slots, t2, truth(slots[t2] != 0 || slots[t1] != 0))
        },
    }
}

/// The fixed sixteen-slot evaluation stack, and its top, after running `ops` against `cpu`.
pub open spec fn run_ops(ops: Seq<Op>, cpu: CpuView) -> (Seq<i32>, int)
    decreases ops.len(),
{
    if ops.len() == 0 {
        (Seq::new(16, |i: int| 0i32), 0)
    } else {
        let (slots, top) = run_ops(ops.drop_last(), cpu);
        run_step(ops.last(), slots, top, cpu)
    }
}

/// What a program of three steps leaves on the bottom of the stack.
pub open spec fn three_step_result(o1: Op, o2: Op, o3: Op, cpu: CpuView) -> i32 {
    run_ops(seq![o1, o2, o3], cpu).0[0]
}

/// A program of three steps runs them in order from the empty stack.
proof fn lemma_three_steps(o1: Op, o2: Op, o3: Op, cpu: CpuView)
    ensures
        ({
            let empty = (Seq::new(16, |i: int| 0i32), 0int);
            let s1 = run_step(o1, empty.0, empty.1, cpu);
            let s2 = run_step(o2, s1.0, s1.1, cpu);
            run_ops(seq![o1, o2, o3], cpu) == run_step(o3, s2.0, s2.1, cpu)
        }),
{
    let p3 = seq![o1, o2, o3];
    let p2 = seq![o1, o2];
    let p1 = seq![o1];
    assert(p3.drop_last() =~= p2);
    assert(p2.drop_last() =~= p1);
    assert(p1.drop_last() =~= Seq::<Op>::empty());
    let empty = (Seq::new(16, |i: int| 0i32), 0int);
    assert(run_ops(Seq::<Op>::empty(), cpu) == empty);
    let s1 = run_step(o1, empty.0, empty.1, cpu);
    assert(run_ops(p1, cpu) == s1);
    let s2 = run_step(o2, s1.0, s1.1, cpu);
    assert(run_ops(p2, cpu) == s2);
    assert(run_ops(p3, cpu) == run_step(o3, s2.0, s2.1, cpu));
}

/// Comparing two values leaves 1 exactly when they stand in the asked order as integers, and 0
/// otherwise: `<=` holds on equal values and `<` does not, `<=` is the opposite of `>`, and `>=`
/// is `<=` read the other way round.
pub proof fn lemma_comparisons_follow_integer_order(a: i32, b: i32, cpu: CpuView)
    ensures
        three_step_result(Op::Push(a), Op::Push(b), Op::Compare(Comparison::Eq), cpu) == (if a == b { 1i32 } else { 0 }),
        three_step_result(Op::Push(a), Op::Push(b), Op::Compare(Comparison::Ne), cpu) == (if a != b { 1i32 } else { 0 }),
        three_step_result(Op::Push(a), Op::Push(b), Op::Compare(Comparison::Lt), cpu) == (if a < b { 1i32 } else { 0 }),
        three_step_result(Op::Push(a), Op::Push(b), Op::Compare(Comparison::Le), cpu) == (if a <= b { 1i32 } else { 0 }),
        three_step_result(Op::Push(a), Op::Push(b), Op::Compare(Comparison::Gt), cpu) == (if a > b { 1i32 } else { 0 }),
        three_step_result(Op::Push(a), Op::Push(b), Op::Compare(Comparison::Ge), cpu) == (if a >= b { 1i32 } else { 0 }),
        three_step_result(Op::Push(a), Op::Push(a), Op::Compare(Comparison::Le), cpu) == 1,
        three_step_result(Op::Push(a), Op::Push(a), Op::Compare(Comparison::Lt), cpu) == 0,
        three_step_result(Op::Push(a), Op::Push(b), Op::Compare(Comparison::Le), cpu)
            + three_step_result(Op::Push(a), Op::Push(b), Op::Compare(Comparison::Gt), cpu) == 1,
        three_step_result(Op::Push(a), Op::Push(b), Op::Compare(Comparison::Ge), cpu)
            == three_step_result(Op::Push(b), Op::Push(a), Op::Compare(Comparison::Le), cpu),
{
    lemma_three_steps(Op::Push(a), Op::Push(b), Op::Compare(Comparison::Eq), cpu);
    lemma_three_steps(Op::Push(a), Op::Push(b), Op::Compare(Comparison::Ne), cpu);
    lemma_three_steps(Op::Push(a), Op::Push(b), Op::Compare(Comparison::Lt), cpu);
    lemma_three_steps(Op::Push(a), Op::Push(b), Op::Compare(Comparison::Le), cpu);
    lemma_three_steps(Op::Push(a), Op::Push(b), Op::Compare(Comparison::Gt), cpu);
    lemma_three_steps(Op::Push(a), Op::Push(b), Op::Compare(Comparison::Ge), cpu);
    lemma_three_steps(Op::Push(a), Op::Push(a), Op::Compare(Comparison::Le), cpu);
    lemma_three_steps(Op::Push(a), Op::Push(a), Op::Compare(Comparison::Lt), cpu);
    lemma_three_steps(Op::Push(b), Op::Push(a), Op::Compare(Comparison::Le), cpu);
}

/// A condition comparing two registers holds exactly when their values stand in that order:
/// `A <= X` holds whenever A and X are equal, and `A < X` never does then.
pub proof fn lemma_register_comparisons_follow_integer_order(cpu: CpuView)
    ensures
        three_step_result(Op::Reg(Reg::A), Op::Reg(Reg::X), Op::Compare(Comparison::Le), cpu) == (if cpu.acc <= cpu.x { 1i32 } else { 0 }),
        three_step_result(Op::Reg(Reg::A), Op::Reg(Reg::X), Op::Compare(Comparison::Lt), cpu) == (if cpu.acc < cpu.x { 1i32 } else { 0 }),
        three_step_result(Op::Reg(Reg::A), Op::Reg(Reg::X), Op::Compare(Comparison::Ge), cpu) == (if cpu.acc >= cpu.x { 1i32 } else { 0 }),
        three_step_result(Op::Reg(Reg::A), Op::Reg(Reg::X), Op::Compare(Comparison::Gt), cpu) == (if cpu.acc > cpu.x { 1i32 } else { 0 }),
{
    lemma_three_steps(Op::Reg(Reg::A), Op::Reg(Reg::X), Op::Compare(Comparison::Le), cpu);
    lemma_three_steps(Op::Reg(Reg::A), Op::Reg(Reg::X), Op::Compare(Comparison::Lt), cpu);
    lemma_three_steps(Op::Reg(Reg::A), Op::Reg(Reg::X), Op::Compare(Comparison::Ge), cpu);
    lemma_three_steps(Op::Reg(Reg::A), Op::Reg(Reg::X), Op::Compare(Comparison::Gt), cpu);
}

/// Runs keep a stack of sixteen slots with its top inside it.
proof fn lemma_run_shape(ops: Seq<Op>, cpu: CpuView)
    ensures
        run_ops(ops, cpu).0.len() == 16,
        0 <= run_ops(ops, cpu).1 <= 16,
    decreases ops.len(),
{
    if ops.len() > 0 {
        lemma_run_shape(ops.drop_last(), cpu);
    }
}

impl Expr {
    /// Evaluate against `cpu`. Memory is read without a bus cycle, so evaluating moves nothing.
    pub fn eval(&self, cpu: &Cpu) -> (v: i32)
        requires
            cpu.wf(),
        ensures
            v == run_ops(self.spec_ops(), cpu@).0[0],
    {
        let mut slots: Vec<i32> = Vec::new();
        let mut k: usize = 0;
        while k < 16
            invariant
                k <= 16,
                slots@ == Seq::new(k as nat, |i: int| 0i32),
            decreases 16 - k,
        {
            slots.push(0);
            proof {
                assert(slots@ =~= Seq::new((k + 1) as nat, |i: int| 0i32));
            }
            k = k + 1;
        }
        let mut top: usize = 0;
        let mut i: usize = 0;
        while i < self.ops.len()
            invariant
                cpu.wf(),
                i <= self.ops@.len(),
                (slots@, top as int) == run_ops(self.ops@.take(i as int), cpu@),
                slots@.len() == 16,
                top <= 16,
            decreases self.ops@.len() - i,
        {
            proof {
                assert(self.ops@.take(i + 1).drop_last() =~= self.ops@.take(i as int));
                lemma_run_shape(self.ops@.take(i + 1), cpu@);
            }
            match self.ops[i] {
                Op::Push(value) => {
                    if top < 16 {
                        slots.set(top, value);
                        top = top + 1;
                    }
                },
                Op::Reg(reg) => {
                    let value: i32 = match reg {
                        Reg::A => cpu.acc as i32,
                        Reg::X => cpu.x as i32,
                        Reg::Y => cpu.y as i32,
                        Reg::Sp => cpu.sp as i32,
                        Reg::Pc => cpu.pc as i32,
                        Reg::P => cpu.status.bits() as i32,
                    };
                    if top < 16 {
                        slots.set(top, value);
                        top = top + 1;
                    }
                },
                Op::Flag(flag) => {
                    let value: i32 = if cpu.status.contains(flag) { 1 } else { 0 };
                    if top < 16 {
                        slots.set(top, value);
                        top = top + 1;
                    }
                },
                Op::Peek8 => {
                    top = if top > 0 { top - 1 } else { 0 };
                    let addr = slots[top] as u16;
                    let value = cpu.peek(addr) as i32;
                    slots.set(top, value);
                    top = top + 1;
                },
                Op::Peek16 => {
                    top = if top > 0 { top - 1 } else { 0 };
                    let addr = slots[top] as u16;
                    let value = cpu.peek_word(addr) as i32;
                    slots.set(top, value);
                    top = top + 1;
                },
                Op::Not => {
                    top = if top > 0 { top - 1 } else { 0 };
                    let value: i32 = if slots[top] == 0 { 1 } else { 0 };
                    slots.set(top, value);
                    top = top + 1;
                },
                Op::Compare(how) => {
                    top = if top > 0 { top - 1 } else { 0 };
                    let rhs = slots[top];
                    top = if top > 0 { top - 1 } else { 0 };
                    let lhs = slots[top];
                    let holds = match how {
                        Comparison::Eq => lhs == rhs,
                        Comparison::Ne => lhs != rhs,
                        Comparison::Lt => lhs < rhs,
                        Comparison::Le => lhs <= rhs,
                        Comparison::Gt => lhs > rhs,
                        Comparison::Ge => lhs >= rhs,
                    };
                    slots.set(top, if holds { 1 } else { 0 });
                    top = top + 1;
                },
                Op::And => {
                    top = if top > 0 { top - 1 } else { 0 };
                    let rhs = slots[top];
                    top = if top > 0 { top - 1 } else { 0 };
                    let lhs = slots[top];
                    slots.set(top, if lhs != 0 && rhs != 0 { 1 } else { 0 });
                    top = top + 1;
                },
                Op::Or => {
                    top = if top > 0 { top - 1 } else { 0 };
                    let rhs = slots[top];
                    top = if top > 0 { top - 1 } else { 0 };
                    let lhs = slots[top];
                    slots.set(top, if lhs != 0 || rhs != 0 { 1 } else { 0 });
                    top = top + 1;
                },
            }
            i = i + 1;
        }
        proof {
            assert(self.ops@.take(self.ops@.len() as int) =~= self.ops@);
        }
        slots[0]
    }

    /// Whether the expression comes to something other than zero, the question a condition asks.
    pub fn is_true(&self, cpu: &Cpu) -> (b: bool)
        requires
            cpu.wf(),
        ensures
            b == (run_ops(self.spec_ops(), cpu@).0[0] != 0),
    {
        self.eval(cpu) != 0
    }
}

/// How many values `ops` leave on the stack beyond what they found, counting without a floor.
pub open spec fn net(ops: Seq<Op>) -> int
    decreases ops.len(),
{
    if ops.len() == 0 {
        0
    } else {
        net(ops.drop_last()) - stack_effect(ops.last()).0 + stack_effect(ops.last()).1
    }
}

/// Whether `ops`, started on `d` values, always have the operands each step pops.
pub open spec fn never_short(ops: Seq<Op>, d: int) -> bool {
    forall|k: int| 0 <= k < ops.len() ==> d + net(#[trigger] ops.take(k)) >= stack_effect(ops[k]).0
}

/// A self-contained program piece: it pops nothing it did not push, and leaves one value.
pub open spec fn one_value(ops: Seq<Op>) -> bool {
    never_short(ops, 0) && net(ops) == 1
}

/// The rest of a chain of binary operators: run on the value before it, it leaves one value.
pub open spec fn tail_piece(ops: Seq<Op>) -> bool {
    never_short(ops, 1) && net(ops) == 0
}

/// The count of values adds up over a concatenation.
proof fn lemma_net_concat(a: Seq<Op>, b: Seq<Op>)
    ensures
        net(a + b) == net(a) + net(b),
    decreases b.len(),
{
    if b.len() == 0 {
        assert(a + b =~= a);
    } else {
        lemma_net_concat(a, b.drop_last());
        assert((a + b).drop_last() =~= a + b.drop_last());
    }
}

/// Two pieces that each have their operands, run one after the other, have theirs.
proof fn lemma_never_short_concat(a: Seq<Op>, b: Seq<Op>, d: int)
    requires
        never_short(a, d),
        never_short(b, d + net(a)),
    ensures
        never_short(a + b, d),
{
    assert forall|k: int| 0 <= k < (a + b).len() implies d + net(#[trigger] (a + b).take(k)) >= stack_effect((a + b)[k]).0 by {
        if k < a.len() {
            assert((a + b).take(k) =~= a.take(k));
        } else {
            assert((a + b).take(k) =~= a + b.take(k - a.len()));
            lemma_net_concat(a, b.take(k - a.len()));
        }
    }
}

/// Starting on more values never leaves a step short.
proof fn lemma_never_short_more(ops: Seq<Op>, d: int, e: int)
    requires
        never_short(ops, d),
        d <= e,
    ensures
        never_short(ops, e),
{
}

/// One step alone: what it counts, and that it has its operands when started on enough.
proof fn lemma_single(op: Op, d: int)
    requires
        d >= stack_effect(op).0,
    ensures
        net(seq![op]) == stack_effect(op).1 - stack_effect(op).0,
        never_short(seq![op], d),
{
    assert(seq![op].drop_last() =~= Seq::<Op>::empty());
    assert(seq![op].take(0) =~= Seq::<Op>::empty());
    assert(net(Seq::<Op>::empty()) == 0);
    assert forall|k: int| 0 <= k < seq![op].len() implies d + net(#[trigger] seq![op].take(k)) >= stack_effect(seq![op][k]).0 by {
        assert(k == 0);
    }
}

/// A piece of one step that pops nothing and pushes one.
proof fn lemma_leaf(op: Op)
    requires
        stack_effect(op) == (0int, 1int),
    ensures
        one_value(seq![op]),
{
    assert(seq![op].drop_last() =~= Seq::<Op>::empty());
    assert(seq![op].take(0) =~= Seq::<Op>::empty());
    assert(net(Seq::<Op>::empty()) == 0);
    assert(net(seq![op]) == 1);
    assert forall|k: int| 0 <= k < seq![op].len() implies 0 + net(#[trigger] seq![op].take(k)) >= stack_effect(seq![op][k]).0 by {
        assert(k == 0);
    }
}

/// A piece followed by a one-operand step is still a piece.
proof fn lemma_unary_piece(a: Seq<Op>, op: Op)
    requires
        one_value(a),
        stack_effect(op) == (1int, 1int),
    ensures
        one_value(a.push(op)),
{
    assert(a.push(op) =~= a + seq![op]);
    lemma_single(op, 1);
    lemma_net_concat(a, seq![op]);
    lemma_never_short_concat(a, seq![op], 0);
}

/// A piece then the rest of its chain is a piece.
proof fn lemma_piece_then_tail(a: Seq<Op>, t: Seq<Op>)
    requires
        one_value(a),
        tail_piece(t),
    ensures
        one_value(a + t),
{
    lemma_net_concat(a, t);
    lemma_never_short_concat(a, t, 0);
}

/// An operand, its two-operand operator, then the rest of the chain, is the rest of a chain.
proof fn lemma_binary_tail(b: Seq<Op>, op: Op, t: Seq<Op>)
    requires
        one_value(b),
        stack_effect(op) == (2int, 1int),
        tail_piece(t),
    ensures
        tail_piece(b.push(op) + t),
{
    let bo = b.push(op);
    assert(bo =~= b + seq![op]);
    lemma_single(op, 2);
    lemma_net_concat(b, seq![op]);
    lemma_never_short_more(b, 0, 1);
    lemma_never_short_concat(b, seq![op], 1);
    lemma_net_concat(bo, t);
    lemma_never_short_concat(bo, t, 1);
}

/// Nothing is the rest of a chain with no more operators.
proof fn lemma_empty_tail()
    ensures
        tail_piece(Seq::<Op>::empty()),
{
}

/// What `p_or` compiles leaves one value.
proof fn lemma_or_piece(c: Seq<char>, at: int, n: int)
    ensures
        p_or(c, at, n) matches Ok((o, _)) ==> one_value(o),
    decreases 65 - n, 17int, c.len() - at,
{
    lemma_p_or_step(c, at, n);
    lemma_and_piece(c, at, n);
    if p_and(c, at, n) is Ok {
        let (o, a) = p_and(c, at, n)->Ok_0;
        lemma_or_tail_piece(c, a, n);
        if p_or_tail(c, a, n) is Ok {
            lemma_piece_then_tail(o, p_or_tail(c, a, n)->Ok_0.0);
        }
    }
}

/// What `p_or_tail` compiles is the rest of a chain.
proof fn lemma_or_tail_piece(c: Seq<char>, at: int, n: int)
    ensures
        p_or_tail(c, at, n) matches Ok((o, _)) ==> tail_piece(o),
    decreases 65 - n, 16int, c.len() - at,
{
    lemma_p_or_tail_step(c, at, n);
    if eat(c, at, seq!['|', '|']).0 {
        let a1 = eat(c, at, seq!['|', '|']).1;
        lemma_and_piece(c, a1, n);
        if p_and(c, a1, n) is Ok {
            let (o, a2) = p_and(c, a1, n)->Ok_0;
            if at < a2 <= c.len() {
                lemma_or_tail_piece(c, a2, n);
                if p_or_tail(c, a2, n) is Ok {
                    lemma_binary_tail(o, Op::Or, p_or_tail(c, a2, n)->Ok_0.0);
                }
            }
        }
    } else {
        lemma_empty_tail();
    }
}

/// What `p_and` compiles leaves one value.
proof fn lemma_and_piece(c: Seq<char>, at: int, n: int)
    ensures
        p_and(c, at, n) matches Ok((o, _)) ==> one_value(o),
    decreases 65 - n, 15int, c.len() - at,
{
    lemma_p_and_step(c, at, n);
    lemma_equality_piece(c, at, n);
    if p_equality(c, at, n) is Ok {
        let (o, a) = p_equality(c, at, n)->Ok_0;
        lemma_and_tail_piece(c, a, n);
        if p_and_tail(c, a, n) is Ok {
            lemma_piece_then_tail(o, p_and_tail(c, a, n)->Ok_0.0);
        }
    }
}

/// What `p_and_tail` compiles is the rest of a chain.
proof fn lemma_and_tail_piece(c: Seq<char>, at: int, n: int)
    ensures
        p_and_tail(c, at, n) matches Ok((o, _)) ==> tail_piece(o),
    decreases 65 - n, 14int, c.len() - at,
{
    lemma_p_and_tail_step(c, at, n);
    if eat(c, at, seq!['&', '&']).0 {
        let a1 = eat(c, at, seq!['&', '&']).1;
        lemma_equality_piece(c, a1, n);
        if p_equality(c, a1, n) is Ok {
            let (o, a2) = p_equality(c, a1, n)->Ok_0;
            if at < a2 <= c.len() {
                lemma_and_tail_piece(c, a2, n);
                if p_and_tail(c, a2, n) is Ok {
                    lemma_binary_tail(o, Op::And, p_and_tail(c, a2, n)->Ok_0.0);
                }
            }
        }
    } else {
        lemma_empty_tail();
    }
}

/// What `p_equality` compiles leaves one value.
proof fn lemma_equality_piece(c: Seq<char>, at: int, n: int)
    ensures
        p_equality(c, at, n) matches Ok((o, _)) ==> one_value(o),
    decreases 65 - n, 13int, c.len() - at,
{
    lemma_p_equality_step(c, at, n);
    lemma_relational_piece(c, at, n);
    if p_relational(c, at, n) is Ok {
        let (o, a) = p_relational(c, at, n)->Ok_0;
        lemma_eq_tail_piece(c, a, n);
        if p_eq_tail(c, a, n) is Ok {
            lemma_piece_then_tail(o, p_eq_tail(c, a, n)->Ok_0.0);
        }
    }
}

/// What `p_eq_tail` compiles is the rest of a chain.
proof fn lemma_eq_tail_piece(c: Seq<char>, at: int, n: int)
    ensures
        p_eq_tail(c, at, n) matches Ok((o, _)) ==> tail_piece(o),
    decreases 65 - n, 12int, c.len() - at,
{
    lemma_p_eq_tail_step(c, at, n);
    if eq_op(c, at).0 is Some {
        let a1 = eq_op(c, at).1;
        lemma_relational_piece(c, a1, n);
        if p_relational(c, a1, n) is Ok {
            let (o, a2) = p_relational(c, a1, n)->Ok_0;
            if at < a2 <= c.len() {
                lemma_eq_tail_piece(c, a2, n);
                if p_eq_tail(c, a2, n) is Ok {
                    lemma_binary_tail(o, Op::Compare(eq_op(c, at).0->0), p_eq_tail(c, a2, n)->Ok_0.0);
                }
            }
        }
    } else {
        lemma_empty_tail();
    }
}

/// What `p_relational` compiles leaves one value.
proof fn lemma_relational_piece(c: Seq<char>, at: int, n: int)
    ensures
        p_relational(c, at, n) matches Ok((o, _)) ==> one_value(o),
    decreases 65 - n, 11int, c.len() - at,
{
    lemma_p_relational_step(c, at, n);
    lemma_unary_piece_g(c, at, n);
    if p_unary(c, at, n) is Ok {
        let (o, a) = p_unary(c, at, n)->Ok_0;
        lemma_rel_tail_piece(c, a, n);
        if p_rel_tail(c, a, n) is Ok {
            lemma_piece_then_tail(o, p_rel_tail(c, a, n)->Ok_0.0);
        }
    }
}

/// What `p_rel_tail` compiles is the rest of a chain.
proof fn lemma_rel_tail_piece(c: Seq<char>, at: int, n: int)
    ensures
        p_rel_tail(c, at, n) matches Ok((o, _)) ==> tail_piece(o),
    decreases 65 - n, 10int, c.len() - at,
{
    lemma_p_rel_tail_step(c, at, n);
    if rel_op(c, at).0 is Some {
        let a1 = rel_op(c, at).1;
        lemma_unary_piece_g(c, a1, n);
        if p_unary(c, a1, n) is Ok {
            let (o, a2) = p_unary(c, a1, n)->Ok_0;
            if at < a2 <= c.len() {
                lemma_rel_tail_piece(c, a2, n);
                if p_rel_tail(c, a2, n) is Ok {
                    lemma_binary_tail(o, Op::Compare(rel_op(c, at).0->0), p_rel_tail(c, a2, n)->Ok_0.0);
                }
            }
        }
    } else {
        lemma_empty_tail();
    }
}

/// What `p_unary` compiles leaves one value.
proof fn lemma_unary_piece_g(c: Seq<char>, at: int, n: int)
    ensures
        p_unary(c, at, n) matches Ok((o, _)) ==> one_value(o),
    decreases 65 - n, 9int, c.len() - at,
{
    lemma_p_unary_step(c, at, n);
    lemma_skip_ws(c, at);
    let p = skip_ws(c, at);
    if 0 <= p < c.len() && c[p] == '!' && !(p + 1 < c.len() && c[p + 1] == '=') {
        lemma_unary_piece_g(c, p + 1, n);
        if p_unary(c, p + 1, n) is Ok {
            lemma_unary_piece(p_unary(c, p + 1, n)->Ok_0.0, Op::Not);
        }
    } else {
        lemma_primary_piece(c, p, n);
    }
}

/// What `p_primary` compiles leaves one value.
proof fn lemma_primary_piece(c: Seq<char>, at: int, n: int)
    ensures
        p_primary(c, at, n) matches Ok((o, _)) ==> one_value(o),
    decreases 65 - n, 8int, c.len() - at,
{
    lemma_p_primary_step(c, at, n);
    if n + 1 <= 64 {
        lemma_primary_inner_piece(c, at, n + 1);
    }
}

/// What `p_number` compiles is one push.
proof fn lemma_number_piece(c: Seq<char>, at: int, radix: u32)
    ensures
        p_number(c, at, radix) matches Ok((o, _)) ==> one_value(o),
{
    reveal(p_number);
    if p_number(c, at, radix) is Ok {
        let end = scan_digits(c, at, radix);
        let text = without_separators(c.subrange(at, end));
        lemma_leaf(Op::Push(digits_value(text, radix) as i32));
    }
}

/// What `p_primary_inner` compiles leaves one value.
proof fn lemma_primary_inner_piece(c: Seq<char>, at: int, n: int)
    ensures
        p_primary_inner(c, at, n) matches Ok((o, _)) ==> one_value(o),
    decreases 65 - n, 20int, c.len() - at,
{
    lemma_p_primary_inner_step(c, at, n);
    let p = skip_ws(c, at);
    if 0 <= p < c.len() {
        let ch = c[p];
        let next: Option<char> = if p + 1 < c.len() { Some(c[p + 1]) } else { None };
        if ch == '(' {
            lemma_or_piece(c, p + 1, n);
        } else if ch == '$' {
            lemma_number_piece(c, p + 1, 16);
        } else if ch == '0' && (next == Some('x') || next == Some('X')) {
            lemma_number_piece(c, p + 2, 16);
        } else if ch == '0' && (next == Some('b') || next == Some('B')) {
            lemma_number_piece(c, p + 2, 2);
        } else if '0' <= ch && ch <= '9' {
            lemma_number_piece(c, p, 10);
        } else if ascii_alpha(ch) {
            lemma_name_piece(c, p, n);
        }
    }
}

/// What `p_name` compiles leaves one value.
proof fn lemma_name_piece(c: Seq<char>, at: int, n: int)
    ensures
        p_name(c, at, n) matches Ok((o, _)) ==> one_value(o),
    decreases 65 - n, 19int, c.len() - at,
{
    lemma_p_name_step(c, at, n);
    reveal(name_op);
    let end = scan_name(c, at);
    let name = c.subrange(at, end);
    let lower = name.map_values(|ch: char| ascii_lower(ch));
    if lower == seq!['m', 'e', 'm'] || lower == seq!['m', 'e', 'm', '1', '6'] {
        let peek = if lower == seq!['m', 'e', 'm'] { Op::Peek8 } else { Op::Peek16 };
        let (opened, a1) = eat(c, end, seq!['[']);
        if opened {
            lemma_or_piece(c, a1, n);
            if p_or(c, a1, n) is Ok {
                lemma_unary_piece(p_or(c, a1, n)->Ok_0.0, peek);
            }
        }
    } else if name_op(lower) is Some {
        lemma_leaf(name_op(lower)->0);
    }
}

/// With every step supplied, the parser's floored reckoning is the plain count.
proof fn lemma_depth_is_net(ops: Seq<Op>)
    requires
        never_short(ops, 0),
    ensures
        depth_of(ops) == net(ops),
        forall|k: int| 0 <= k <= ops.len() ==> #[trigger] net(ops.take(k)) <= max_depth_of(ops),
    decreases ops.len(),
{
    if ops.len() > 0 {
        let init = ops.drop_last();
        assert forall|k: int| 0 <= k < init.len() implies 0 + net(#[trigger] init.take(k)) >= stack_effect(init[k]).0 by {
            assert(init.take(k) =~= ops.take(k));
        }
        lemma_depth_is_net(init);
        assert(ops.take(init.len() as int) =~= init);
        assert forall|k: int| 0 <= k <= ops.len() implies #[trigger] net(ops.take(k)) <= max_depth_of(ops) by {
            if k < ops.len() {
                assert(ops.take(k) =~= init.take(k));
            } else {
                assert(ops.take(k) =~= ops);
            }
        }
    } else {
        assert(ops.take(0) =~= ops);
    }
}

/// The stack an unbounded machine would hold after one step.
pub open spec fn ideal_step(op: Op, st: Seq<i32>, cpu: CpuView) -> Seq<i32> {
    match op {
        Op::Push(v) => st.push(v),
        Op::Reg(r) => st.push(reg_value(r, cpu)),
        Op::Flag(f) => st.push(truth(cpu.flag(f))),
        Op::Peek8 => st.drop_last().push(cpu.at(st.last() as u16) as i32),
        Op::Peek16 => st.drop_last().push(cpu.word_at(st.last() as u16) as i32),
        Op::Not => st.drop_last().push(truth(st.last() == 0)),
        Op::Compare(how) => st.drop_last().drop_last().push(truth(compares(how, st[st.len() - 2], st.last()))),
        Op::And => st.drop_last().drop_last().push(truth(st[st.len() - 2] != 0 && st.last() != 0)),
        Op::Or => st.drop_last().drop_last().push(truth(st[st.len() - 2] != 0 || st.last() != 0)),
    }
}

/// The stack an unbounded machine would hold after `ops`.
pub open spec fn ideal_run(ops: Seq<Op>, cpu: CpuView) -> Seq<i32>
    decreases ops.len(),
{
    if ops.len() == 0 { Seq::empty() } else { ideal_step(ops.last(), ideal_run(ops.drop_last(), cpu), cpu) }
}

/// While every step has its operands and the stack stays within its sixteen slots, the fixed
/// stack holds exactly what an unbounded one would.
proof fn lemma_fixed_stack_is_exact(ops: Seq<Op>, cpu: CpuView)
    requires
        never_short(ops, 0),
        forall|k: int| 0 <= k <= ops.len() ==> #[trigger] net(ops.take(k)) <= 16,
    ensures
        run_ops(ops, cpu).1 == net(ops),
        ideal_run(ops, cpu).len() == net(ops),
        forall|i: int| 0 <= i < net(ops) ==> #[trigger] run_ops(ops, cpu).0[i] == ideal_run(ops, cpu)[i],
    decreases ops.len(),
{
    lemma_run_shape(ops, cpu);
    if ops.len() > 0 {
        let init = ops.drop_last();
        assert forall|k: int| 0 <= k < init.len() implies 0 + net(#[trigger] init.take(k)) >= stack_effect(init[k]).0 by {
            assert(init.take(k) =~= ops.take(k));
        }
        assert forall|k: int| 0 <= k <= init.len() implies #[trigger] net(init.take(k)) <= 16 by {
            assert(init.take(k) =~= ops.take(k));
        }
        lemma_fixed_stack_is_exact(init, cpu);
        lemma_run_shape(init, cpu);
        assert(ops.take(init.len() as int) =~= init);
        assert(ops.take(ops.len() as int) =~= ops);
        let (slots, top) = run_ops(init, cpu);
        let st = ideal_run(init, cpu);
        assert(top >= stack_effect(ops.last()).0);
        assert(net(ops) <= 16);
        let (slots2, top2) = run_ops(ops, cpu);
        let st2 = ideal_run(ops, cpu);
        assert forall|i: int| 0 <= i < net(ops) implies #[trigger] run_ops(ops, cpu).0[i] == ideal_run(ops, cpu)[i] by {
            assert(slots2[i] == st2[i]);
        }
    }
}

/// A parsed expression never outgrows the evaluation stack and always has the operands each
/// step takes: evaluating it leaves exactly one value, the one an unbounded stack machine would
/// compute, so the fixed stack's limits are never reached.
pub proof fn lemma_parsed_expressions_fit_the_stack(source: Seq<char>, cpu: CpuView)
    requires
        parse_chars(source) is Ok,
    ensures
        ({
            let ops = parse_chars(source)->Ok_0;
            &&& never_short(ops, 0)
            &&& forall|k: int| 0 <= k <= ops.len() ==> #[trigger] net(ops.take(k)) <= Expr::MAX_DEPTH
            &&& run_ops(ops, cpu).1 == 1
            &&& ideal_run(ops, cpu).len() == 1
            &&& run_ops(ops, cpu).0[0] == ideal_run(ops, cpu)[0]
        }),
{
    lemma_or_piece(source, 0, 0);
    let ops = parse_chars(source)->Ok_0;
    lemma_depth_is_net(ops);
    lemma_fixed_stack_is_exact(ops, cpu);
}

} // verus!
