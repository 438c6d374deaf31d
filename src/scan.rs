//! The scanner: the rules that turn source bytes into tokens, stated as spec
//! functions, and a lazy scanner with lookahead that follows them.

use std::collections::VecDeque;

use vstd::prelude::*;
use vstd::string::StringSliceAdditionalSpecFns;

use crate::error::ParseError;

verus! {

/// The value of a decimal numeral `d1.d2`. Of its digits with the point taken
/// out, leading zeros aside, `mantissa` is the value of the first nineteen
/// (at most) and `dropped` counts the ones after those; `scale` is the number
/// of digits after the point. The value is `mantissa * 10^dropped / 10^scale`,
/// up to the dropped digits, which lie below the precision of a double.
/// `3.25` is `{ mantissa: 325, dropped: 0, scale: 2 }`, `7.` is
/// `{ mantissa: 7, dropped: 0, scale: 0 }`.
#[derive(Debug, Clone, Copy, PartialEq, Eq, Structural)]
pub struct Decimal {
    pub mantissa: u64,
    pub dropped: usize,
    pub scale: usize,
}

/// How many significant digits a `Decimal` keeps; any run of them fits `u64`.
pub const SIGNIFICANT_DIGITS: usize = 19;

/// The kind of a token; numerals carry their value.
#[derive(Debug, Clone, Copy, PartialEq, Eq, Structural)]
pub enum TokenKind {
    LeftParen,
    RightParen,
    Minus,
    Plus,
    Multiply,
    Divide,
    Power,
    Modulo,
    Equal,
    Factorial,
    Less,
    Greater,
    LessEqual,
    GreaterEqual,
    NotEqual,
    Variable,
    SpecialVariable,
    BuiltinFunction,
    Integer(u64),
    Float(Decimal),
    Comma,
    End,
}

/// A token: its kind and the exact bytes of the source it was scanned from.
#[derive(Debug, Clone, PartialEq, Eq)]
pub struct Token {
    pub kind: TokenKind,
    pub lexeme: Vec<u8>,
}

/// What a token stands for in contracts: its kind and its lexeme.
pub type TokenView = (TokenKind, Seq<u8>);

impl View for Token {
    type V = TokenView;

    open spec fn view(&self) -> TokenView {
        (self.kind, self.lexeme@)
    }
}

impl Token {
    /// A token of kind `kind` spelled `lexeme`.
    pub fn new(kind: TokenKind, lexeme: &str) -> (r: Token)
        ensures
            r@ == (kind, lexeme.spec_bytes()),
    {
        Token { kind, lexeme: vstd::slice::slice_to_vec(lexeme.as_bytes()) }
    }
}

// ---------------------------------------------------------------------------
// The scanning rules, stated over the bytes of the source.

/// ASCII whitespace: space, tab, line feed, form feed, carriage return.
pub open spec fn is_space(c: u8) -> bool {
    c == 0x20u8 || c == 0x09u8 || c == 0x0au8 || c == 0x0cu8 || c == 0x0du8
}

/// An ASCII decimal digit.
pub open spec fn is_digit(c: u8) -> bool {
    ('0' as u8) <= c <= ('9' as u8)
}

/// The bytes that end an identifier. The zero byte is among them: it is what
/// the scanner sees past the end of the source.
pub open spec fn ends_identifier(c: u8) -> bool {
    is_space(c) || c == 0u8 || c == ('(' as u8) || c == (')' as u8) || c == ('-' as u8) || c == ('+' as u8) || c == ('*' as u8)
        || c == ('/' as u8) || c == ('^' as u8) || c == ('%' as u8) || c == (',' as u8) || c == ('!' as u8) || c == ('>' as u8) || c
        == ('<' as u8) || c == ('=' as u8)
}

/// The byte at `i`, or zero past the end.
pub open spec fn byte_at(src: Seq<u8>, i: int) -> u8 {
    if 0 <= i < src.len() {
        src[i]
    } else {
        0u8
    }
}

/// The first position at or after `i` that holds no whitespace.
pub open spec fn skip_spaces(src: Seq<u8>, i: int) -> int
    decreases src.len() - i,
{
    if 0 <= i < src.len() && is_space(src[i]) {
        skip_spaces(src, i + 1)
    } else {
        i
    }
}

/// The first position at or after `i` whose byte ends an identifier.
pub open spec fn name_end(src: Seq<u8>, i: int) -> int
    decreases src.len() - i,
{
    if 0 <= i < src.len() && !ends_identifier(src[i]) {
        name_end(src, i + 1)
    } else {
        i
    }
}

/// The first position at or after `i` that holds no digit.
pub open spec fn digits_end(src: Seq<u8>, i: int) -> int
    decreases src.len() - i,
{
    if 0 <= i < src.len() && is_digit(src[i]) {
        digits_end(src, i + 1)
    } else {
        i
    }
}

/// The value of a run of decimal digits.
pub open spec fn digits_value(d: Seq<u8>) -> nat
    decreases d.len(),
{
    if d.len() == 0 {
        0
    } else {
        (digits_value(d.drop_last()) * 10 + (d.last() - ('0' as u8))) as nat
    }
}

/// Ten to the power `n`.
pub open spec fn pow10(n: nat) -> nat
    decreases n,
{
    if n == 0 {
        1
    } else {
        10 * pow10((n - 1) as nat)
    }
}

/// A digit run without its leading zeros.
pub open spec fn significant(d: Seq<u8>) -> Seq<u8>
    decreases d.len(),
{
    if d.len() > 0 && d[0] == ('0' as u8) {
        significant(d.drop_first())
    } else {
        d
    }
}

/// The `Decimal` of the digits `digits` (the point taken out), of which the
/// last `scale` stood after the point.
pub open spec fn decimal_of(digits: Seq<u8>, scale: int) -> Decimal {
    let g = significant(digits);
    let kept = if g.len() <= SIGNIFICANT_DIGITS { g.len() as int } else { SIGNIFICANT_DIGITS as int };
    Decimal {
        mantissa: digits_value(g.take(kept)) as u64,
        dropped: (g.len() - kept) as usize,
        scale: scale as usize,
    }
}

/// The kind of an identifier: a builtin function, a special variable, or a
/// plain variable.
pub open spec fn word_kind(w: Seq<u8>) -> TokenKind {
    if w == seq![('s' as u8), ('i' as u8), ('n' as u8)] || w == seq![('c' as u8), ('o' as u8), ('s' as u8)] || w == seq![('t' as u8), ('a' as u8), ('n' as u8)]
        || w == seq![('c' as u8), ('s' as u8), ('c' as u8)] || w == seq![('s' as u8), ('e' as u8), ('c' as u8)] || w == seq![
        ('c' as u8),
        ('o' as u8),
        ('t' as u8),
    ] || w == seq![('s' as u8), ('i' as u8), ('g' as u8), ('m' as u8), ('a' as u8)] || w == seq![('l' as u8), ('n' as u8)] || w == seq![
        ('l' as u8),
        ('o' as u8),
        ('g' as u8),
    ] {
        TokenKind::BuiltinFunction
    } else if w == seq![('t' as u8), ('h' as u8), ('e' as u8), ('t' as u8), ('a' as u8)] || w == seq![('d' as u8), ('x' as u8)] || w == seq![
        ('d' as u8),
        ('y' as u8),
    ] || w == seq![('d' as u8), ('t' as u8), ('h' as u8), ('e' as u8), ('t' as u8), ('a' as u8)] {
        TokenKind::SpecialVariable
    } else {
        TokenKind::Variable
    }
}

/// The operator that starts with byte `c` when `next` follows it, and its
/// length in bytes.
pub open spec fn operator_of(c: u8, next: u8) -> Option<(TokenKind, int)> {
    if c == ('(' as u8) {
        Some((TokenKind::LeftParen, 1))
    } else if c == (')' as u8) {
        Some((TokenKind::RightParen, 1))
    } else if c == ('-' as u8) {
        Some((TokenKind::Minus, 1))
    } else if c == ('+' as u8) {
        Some((TokenKind::Plus, 1))
    } else if c == ('*' as u8) {
        Some((TokenKind::Multiply, 1))
    } else if c == ('/' as u8) {
        Some((TokenKind::Divide, 1))
    } else if c == ('^' as u8) {
        Some((TokenKind::Power, 1))
    } else if c == ('%' as u8) {
        Some((TokenKind::Modulo, 1))
    } else if c == ('=' as u8) {
        Some((TokenKind::Equal, 1))
    } else if c == (',' as u8) {
        Some((TokenKind::Comma, 1))
    } else if c == ('<' as u8) {
        if next == ('=' as u8) {
            Some((TokenKind::LessEqual, 2))
        } else {
            Some((TokenKind::Less, 1))
        }
    } else if c == ('>' as u8) {
        if next == ('=' as u8) {
            Some((TokenKind::GreaterEqual, 2))
        } else {
            Some((TokenKind::Greater, 1))
        }
    } else if c == ('!' as u8) {
        if next == ('=' as u8) {
            Some((TokenKind::NotEqual, 2))
        } else {
            Some((TokenKind::Factorial, 1))
        }
    } else {
        None
    }
}

/// The numeral that starts at `s`: a digit run, and if a point follows it,
/// the point and a second (possibly empty) digit run.
pub open spec fn numeral_at(src: Seq<u8>, s: int) -> Result<(TokenView, int), ParseError> {
    let d = digits_end(src, s);
    if byte_at(src, d) == ('.' as u8) {
        let f = digits_end(src, d + 1);
        let digits = src.subrange(s, d) + src.subrange(d + 1, f);
        Ok(((TokenKind::Float(decimal_of(digits, f - d - 1)), src.subrange(s, f)), f))
    } else {
        let v = digits_value(src.subrange(s, d));
        if v > u64::MAX {
            Err(ParseError::InvalidNumeral)
        } else {
            Ok(((TokenKind::Integer(v as u64), src.subrange(s, d)), d))
        }
    }
}

/// The token that scanning from position `p` yields, and the position after it.
/// At the end of the source (after whitespace) this is `End`, with an empty
/// lexeme.
pub open spec fn scan_at(src: Seq<u8>, p: int) -> Result<(TokenView, int), ParseError> {
    let s = skip_spaces(src, p);
    if s >= src.len() {
        Ok(((TokenKind::End, Seq::empty()), s))
    } else {
        let c = src[s];
        match operator_of(c, byte_at(src, s + 1)) {
            Some((k, n)) => Ok(((k, src.subrange(s, s + n)), s + n)),
            None => if is_digit(c) {
                numeral_at(src, s)
            } else {
                let e = name_end(src, s + 1);
                Ok(((word_kind(src.subrange(s, e)), src.subrange(s, e)), e))
            },
        }
    }
}

/// The tokens still to come: `toks` in order, then either `fault` or, with no
/// fault, `End` for ever.
pub struct TokenStream {
    pub toks: Seq<TokenView>,
    pub fault: Option<ParseError>,
}

/// The views of a sequence of tokens.
pub open spec fn token_views(ts: Seq<Token>) -> Seq<TokenView> {
    ts.map_values(|t: Token| t@)
}

/// The end token, as the stream yields it past its last token.
pub open spec fn end_token() -> TokenView {
    (TokenKind::End, Seq::empty())
}

/// Token `i` of a stream, or the fault that stops the stream before it.
pub open spec fn tok_at(s: TokenStream, i: int) -> Result<TokenView, ParseError> {
    if 0 <= i < s.toks.len() {
        Ok(s.toks[i])
    } else if s.fault is Some {
        Err(s.fault->0)
    } else {
        Ok(end_token())
    }
}

/// The stream that scanning `src` from position `p` yields: every token up to
/// and including the first `End`, or up to the first failure.
pub open spec fn stream_from(src: Seq<u8>, p: int) -> TokenStream
    decreases src.len() - p,
{
    match scan_at(src, p) {
        Err(e) => TokenStream { toks: Seq::empty(), fault: Some(e) },
        Ok((t, q)) => if t.0 is End || !(p < q <= src.len()) {
            TokenStream { toks: seq![t], fault: None }
        } else {
            let rest = stream_from(src, q);
            TokenStream { toks: seq![t] + rest.toks, fault: rest.fault }
        },
    }
}

/// The stream after its first token has been taken.
pub open spec fn advance_stream(s: TokenStream) -> TokenStream {
    if s.toks.len() > 0 {
        TokenStream { toks: s.toks.drop_first(), fault: s.fault }
    } else {
        s
    }
}

/// The tokens of a stream up to and including the first `End`, or the fault
/// that comes first.
pub open spec fn upto_end(s: TokenStream) -> Result<Seq<TokenView>, ParseError>
    decreases s.toks.len(),
{
    if s.toks.len() == 0 {
        match s.fault {
            Some(e) => Err(e),
            None => Ok(seq![end_token()]),
        }
    } else if s.toks[0].0 is End {
        Ok(seq![s.toks[0]])
    } else {
        match upto_end(advance_stream(s)) {
            Err(e) => Err(e),
            Ok(v) => Ok(seq![s.toks[0]] + v),
        }
    }
}

/// The tokens of the whole source, ending with `End`, or the first failure.
pub open spec fn tokens_of(src: Seq<u8>) -> Result<Seq<TokenView>, ParseError> {
    upto_end(stream_from(src, 0))
}

// ---------------------------------------------------------------------------
// Facts about the scanning rules.

pub(crate) proof fn lemma_skip_spaces(src: Seq<u8>, i: int)
    requires
        0 <= i <= src.len(),
    ensures
        i <= skip_spaces(src, i) <= src.len(),
        skip_spaces(src, i) < src.len() ==> !is_space(src[skip_spaces(src, i)]),
    decreases src.len() - i,
{
    if i < src.len() && is_space(src[i]) {
        lemma_skip_spaces(src, i + 1);
    }
}

pub(crate) proof fn lemma_name_end(src: Seq<u8>, i: int)
    requires
        0 <= i <= src.len(),
    ensures
        i <= name_end(src, i) <= src.len(),
    decreases src.len() - i,
{
    if i < src.len() && !ends_identifier(src[i]) {
        lemma_name_end(src, i + 1);
    }
}

pub(crate) proof fn lemma_digits_end(src: Seq<u8>, i: int)
    requires
        0 <= i <= src.len(),
    ensures
        i <= digits_end(src, i) <= src.len(),
        forall|j: int| i <= j < digits_end(src, i) ==> is_digit(#[trigger] src[j]),
    decreases src.len() - i,
{
    if i < src.len() && is_digit(src[i]) {
        lemma_digits_end(src, i + 1);
    }
}

/// Scanning from a position inside the source ends inside it, and past the
/// start unless it yields `End`, which it yields only at the end.
pub proof fn lemma_scan_at_bounds(src: Seq<u8>, p: int)
    requires
        0 <= p <= src.len(),
    ensures
        scan_at(src, p) matches Ok((t, q)) ==> q <= src.len() && (t.0 is End <==> q == src.len()
            && skip_spaces(src, p) == src.len()) && (t.0 !is End ==> p < q),
{
    lemma_skip_spaces(src, p);
    let s = skip_spaces(src, p);
    if s < src.len() {
        lemma_name_end(src, s + 1);
        lemma_digits_end(src, s);
        let d = digits_end(src, s);
        if d < src.len() {
            lemma_digits_end(src, d + 1);
        }
    }
}

/// Each position's stream starts with the token scanned there, and goes on
/// with the stream from the position after it.
pub(crate) proof fn lemma_stream_step(src: Seq<u8>, c: int)
    requires
        0 <= c <= src.len(),
    ensures
        scan_at(src, c) matches Err(e) ==> forall|i: int| #[trigger]
            tok_at(stream_from(src, c), i) == Err::<TokenView, ParseError>(e),
        scan_at(src, c) matches Ok((t, c1)) ==> c1 <= src.len() && tok_at(stream_from(src, c), 0)
            == Ok::<TokenView, ParseError>(t) && forall|i: int|
            i >= 0 ==> #[trigger] tok_at(stream_from(src, c), i + 1) == tok_at(
                stream_from(src, c1),
                i,
            ),
{
    lemma_scan_at_bounds(src, c);
    if let Ok((t, c1)) = scan_at(src, c) {
        if t.0 is End {
            lemma_skip_spaces(src, c1);
            assert(t == end_token());
        }
    }
}

/// Taking the first token shifts the rest of the stream by one.
pub proof fn lemma_advance_stream(s: TokenStream)
    requires
        tok_at(s, 0) is Ok,
    ensures
        forall|i: int| i >= 0 ==> #[trigger] tok_at(advance_stream(s), i) == tok_at(s, i + 1),
{
}

/// A completed scan ends with `End`, and holds no other `End`.
pub proof fn lemma_end_once(s: TokenStream)
    ensures
        upto_end(s) matches Ok(v) ==> v.len() > 0 && v.last().0 is End && forall|j: int|
            0 <= j < v.len() - 1 ==> !((#[trigger] v[j]).0 is End),
    decreases s.toks.len(),
{
    if s.toks.len() > 0 && !(s.toks[0].0 is End) {
        lemma_end_once(advance_stream(s));
        if let Ok(v) = upto_end(advance_stream(s)) {
            let w = seq![s.toks[0]] + v;
            assert forall|j: int| 0 <= j < w.len() - 1 implies !((#[trigger] w[j]).0 is End) by {
                if j > 0 {
                    assert(w[j] == v[j - 1]);
                }
            }
        }
    }
}

/// Appending a digit runs the value on: ten times the old, plus the digit.
proof fn lemma_digits_value_push(d: Seq<u8>, c: u8)
    ensures
        digits_value(d.push(c)) == (digits_value(d) * 10 + (c - ('0' as u8))) as nat,
{
    assert(d.push(c).drop_last() =~= d);
}

/// A digit run is worth at least as much as any of its prefixes.
proof fn lemma_digits_value_grows(a: Seq<u8>, b: Seq<u8>)
    requires
        forall|j: int| 0 <= j < b.len() ==> is_digit(#[trigger] b[j]),
    ensures
        digits_value(a) <= digits_value(a + b),
    decreases b.len(),
{
    if b.len() > 0 {
        let b0 = b.drop_last();
        assert forall|j: int| 0 <= j < b0.len() implies is_digit(#[trigger] b0[j]) by {
            assert(b0[j] == b[j]);
        }
        lemma_digits_value_grows(a, b0);
        assert((a + b0).push(b.last()) =~= a + b);
        lemma_digits_value_push(a + b0, b.last());
    }
}

// ---------------------------------------------------------------------------
// Executable scanning.

/// Whether byte `c` ends an identifier.
pub fn is_non_identifier(c: u8) -> (r: bool)
    ensures
        r == ends_identifier(c),
{
    c == 0x20u8 || c == 0x09u8 || c == 0x0au8 || c == 0x0cu8 || c == 0x0du8 || c == 0x00u8 || c
        == ('(' as u8) || c == (')' as u8) || c == ('-' as u8) || c == ('+' as u8) || c == ('*' as u8) || c == ('/' as u8) || c == ('^' as u8) || c
        == ('%' as u8) || c == (',' as u8) || c == ('!' as u8) || c == ('>' as u8) || c == ('<' as u8) || c == ('=' as u8)
}

fn is_space_byte(c: u8) -> (r: bool)
    ensures
        r == is_space(c),
{
    c == 0x20u8 || c == 0x09u8 || c == 0x0au8 || c == 0x0cu8 || c == 0x0du8
}

fn is_digit_byte(c: u8) -> (r: bool)
    ensures
        r == is_digit(c),
{
    ('0' as u8) <= c && c <= ('9' as u8)
}

/// The byte at `i`, or zero past the end.
fn peek_char(src: &Vec<u8>, i: usize) -> (r: u8)
    ensures
        r == byte_at(src@, i as int),
{
    if i < src.len() {
        src[i]
    } else {
        0u8
    }
}

/// Whether `w` spells out `lit`.
fn spells(w: &[u8], lit: &[u8]) -> (r: bool)
    ensures
        r == (w@ == lit@),
{
    if w.len() != lit.len() {
        return false;
    }
    let mut i: usize = 0;
    while i < w.len()
        invariant
            w.len() == lit.len(),
            0 <= i <= w.len(),
            forall|j: int| 0 <= j < i ==> w@[j] == lit@[j],
        decreases w.len() - i,
    {
        if w[i] != lit[i] {
            return false;
        }
        i = i + 1;
    }
    assert(w@ =~= lit@);
    true
}

/// The kind of the identifier `word`, if it is a keyword.
fn to_keyword(word: &[u8]) -> (r: Option<TokenKind>)
    ensures
        r == (if word_kind(word@) is Variable {
            None
        } else {
            Some(word_kind(word@))
        }),
{
    if spells(word, &[('s' as u8), ('i' as u8), ('n' as u8)]) || spells(word, &[('c' as u8), ('o' as u8), ('s' as u8)]) || spells(
        word,
        &[('t' as u8), ('a' as u8), ('n' as u8)],
    ) || spells(word, &[('c' as u8), ('s' as u8), ('c' as u8)]) || spells(word, &[('s' as u8), ('e' as u8), ('c' as u8)]) || spells(
        word,
        &[('c' as u8), ('o' as u8), ('t' as u8)],
    ) || spells(word, &[('s' as u8), ('i' as u8), ('g' as u8), ('m' as u8), ('a' as u8)]) || spells(word, &[('l' as u8), ('n' as u8)]) || spells(
        word,
        &[('l' as u8), ('o' as u8), ('g' as u8)],
    ) {
        Some(TokenKind::BuiltinFunction)
    } else if spells(word, &[('t' as u8), ('h' as u8), ('e' as u8), ('t' as u8), ('a' as u8)]) || spells(word, &[('d' as u8), ('x' as u8)])
        || spells(word, &[('d' as u8), ('y' as u8)]) || spells(word, &[('d' as u8), ('t' as u8), ('h' as u8), ('e' as u8), ('t' as u8), ('a' as u8)]) {
        Some(TokenKind::SpecialVariable)
    } else {
        None
    }
}

/// A copy of the bytes `src[from..to]`.
fn lexeme(src: &Vec<u8>, from: usize, to: usize) -> (r: Vec<u8>)
    requires
        from <= to <= src.len(),
    ensures
        r@ == src@.subrange(from as int, to as int),
{
    let mut r: Vec<u8> = Vec::new();
    let mut i: usize = from;
    while i < to
        invariant
            from <= i <= to <= src.len(),
            r@ == src@.subrange(from as int, i as int),
        decreases to - i,
    {
        r.push(src[i]);
        i = i + 1;
        assert(r@ =~= src@.subrange(from as int, i as int));
    }
    r
}

/// Runs the digits `src[from..to]` on after the digits `prefix`, whose value
/// is `acc`: the value of the whole run, or `None` where it exceeds `u64`.
fn run_digits(src: &Vec<u8>, from: usize, to: usize, acc: u64, Ghost(prefix): Ghost<Seq<u8>>) -> (r:
    Option<u64>)
    requires
        from <= to <= src.len(),
        acc == digits_value(prefix),
        forall|j: int| from <= j < to ==> is_digit(#[trigger] src@[j]),
    ensures
        ({
            let v = digits_value(prefix + src@.subrange(from as int, to as int));
            if v <= u64::MAX {
                r == Some(v as u64)
            } else {
                r is None
            }
        }),
{
    let mut acc = acc;
    let mut i: usize = from;
    while i < to
        invariant
            from <= i <= to <= src.len(),
            forall|j: int| from <= j < to ==> is_digit(#[trigger] src@[j]),
            acc == digits_value(prefix + src@.subrange(from as int, i as int)),
        decreases to - i,
    {
        let c = src[i];
        let ghost before = prefix + src@.subrange(from as int, i as int);
        proof {
            lemma_digits_value_push(before, c);
            assert(before.push(c) =~= prefix + src@.subrange(from as int, i + 1));
            let rest = src@.subrange(i + 1, to as int);
            assert forall|j: int| 0 <= j < rest.len() implies is_digit(#[trigger] rest[j]) by {
                assert(rest[j] == src@[i + 1 + j]);
            }
            lemma_digits_value_grows(before.push(c), rest);
            assert(before.push(c) + rest =~= prefix + src@.subrange(from as int, to as int));
        }
        let d = (c - ('0' as u8)) as u64;
        match acc.checked_mul(10) {
            None => return None,
            Some(t) => match t.checked_add(d) {
                None => return None,
                Some(n) => acc = n,
            },
        }
        i = i + 1;
    }
    assert(prefix + src@.subrange(from as int, to as int) =~= prefix + src@.subrange(
        from as int,
        i as int,
    ));
    Some(acc)
}

/// The first position at or after `p` that holds no whitespace.
fn slurp_whitespace(src: &Vec<u8>, p: usize) -> (r: usize)
    requires
        p <= src.len(),
    ensures
        r == skip_spaces(src@, p as int),
{
    let mut i = p;
    while i < src.len() && is_space_byte(src[i])
        invariant
            p <= i <= src.len(),
            skip_spaces(src@, i as int) == skip_spaces(src@, p as int),
        decreases src.len() - i,
    {
        i = i + 1;
    }
    i
}

fn name_end_from(src: &Vec<u8>, p: usize) -> (r: usize)
    requires
        p <= src.len(),
    ensures
        r == name_end(src@, p as int),
{
    let mut i = p;
    while i < src.len() && !is_non_identifier(src[i])
        invariant
            p <= i <= src.len(),
            name_end(src@, i as int) == name_end(src@, p as int),
        decreases src.len() - i,
    {
        i = i + 1;
    }
    i
}

fn digits_end_from(src: &Vec<u8>, p: usize) -> (r: usize)
    requires
        p <= src.len(),
    ensures
        r == digits_end(src@, p as int),
{
    let mut i = p;
    while i < src.len() && is_digit_byte(src[i])
        invariant
            p <= i <= src.len(),
            digits_end(src@, i as int) == digits_end(src@, p as int),
        decreases src.len() - i,
    {
        i = i + 1;
    }
    i
}

fn operator_kind(c: u8, next: u8) -> (r: Option<(TokenKind, usize)>)
    ensures
        match operator_of(c, next) {
            Some((k, n)) => r == Some((k, n as usize)),
            None => r is None,
        },
{
    if c == ('(' as u8) {
        Some((TokenKind::LeftParen, 1))
    } else if c == (')' as u8) {
        Some((TokenKind::RightParen, 1))
    } else if c == ('-' as u8) {
        Some((TokenKind::Minus, 1))
    } else if c == ('+' as u8) {
        Some((TokenKind::Plus, 1))
    } else if c == ('*' as u8) {
        Some((TokenKind::Multiply, 1))
    } else if c == ('/' as u8) {
        Some((TokenKind::Divide, 1))
    } else if c == ('^' as u8) {
        Some((TokenKind::Power, 1))
    } else if c == ('%' as u8) {
        Some((TokenKind::Modulo, 1))
    } else if c == ('=' as u8) {
        Some((TokenKind::Equal, 1))
    } else if c == (',' as u8) {
        Some((TokenKind::Comma, 1))
    } else if c == ('<' as u8) {
        if next == ('=' as u8) {
            Some((TokenKind::LessEqual, 2))
        } else {
            Some((TokenKind::Less, 1))
        }
    } else if c == ('>' as u8) {
        if next == ('=' as u8) {
            Some((TokenKind::GreaterEqual, 2))
        } else {
            Some((TokenKind::Greater, 1))
        }
    } else if c == ('!' as u8) {
        if next == ('=' as u8) {
            Some((TokenKind::NotEqual, 2))
        } else {
            Some((TokenKind::Factorial, 1))
        }
    } else {
        None
    }
}

/// A leading zero leaves a digit run's significant digits as they were;
/// any other digit, or any digit after a significant one, joins them.
proof fn lemma_significant_push(d: Seq<u8>, c: u8)
    ensures
        significant(d.push(c)) == if significant(d).len() == 0 && c == ('0' as u8) {
            Seq::<u8>::empty()
        } else {
            significant(d).push(c)
        },
    decreases d.len(),
{
    if d.len() == 0 {
        assert(d =~= Seq::<u8>::empty());
        assert(significant(d) == d);
        assert(d.push(c) =~= seq![c]);
        assert(seq![c].drop_first() =~= Seq::<u8>::empty());
        assert(significant(Seq::<u8>::empty()) == Seq::<u8>::empty());
        if c == ('0' as u8) {
            assert(significant(seq![c]) == significant(seq![c].drop_first()));
        } else {
            assert(significant(seq![c]) == seq![c]);
            assert(d.push(c) =~= significant(d).push(c));
        }
    } else if d[0] == ('0' as u8) {
        lemma_significant_push(d.drop_first(), c);
        assert(d.push(c).drop_first() =~= d.drop_first().push(c));
    } else {
        assert(d.push(c)[0] == d[0]);
    }
}

/// A run of `n` digits is worth less than `10^n`.
proof fn lemma_digits_value_bound(d: Seq<u8>)
    requires
        forall|j: int| 0 <= j < d.len() ==> is_digit(#[trigger] d[j]),
    ensures
        digits_value(d) < pow10(d.len()),
    decreases d.len(),
{
    if d.len() > 0 {
        let d0 = d.drop_last();
        assert forall|j: int| 0 <= j < d0.len() implies is_digit(#[trigger] d0[j]) by {
            assert(d0[j] == d[j]);
        }
        lemma_digits_value_bound(d0);
        assert(d.last() == d[d.len() - 1]);
    }
}

/// The digits of a float numeral seen so far: those in `src[s..i]` but the
/// point at `d`.
pub open spec fn float_digits(src: Seq<u8>, s: int, d: int, i: int) -> Seq<u8> {
    if i <= d {
        src.subrange(s, i)
    } else {
        src.subrange(s, d) + src.subrange(d + 1, i)
    }
}

/// Scans the float whose integer digits are `src[s..d]` and whose point
/// stands at `d`.
fn scan_float(src: &Vec<u8>, s: usize, d: usize) -> (r: (Token, usize))
    requires
        s < d < src.len(),
        d == digits_end(src@, s as int),
        src@[d as int] == ('.' as u8),
    ensures
        numeral_at(src@, s as int) matches Ok((t, q)) && r.0@ == t && r.1 == q,
{
    let f = digits_end_from(src, d + 1);
    proof {
        lemma_digits_end(src@, s as int);
        lemma_digits_end(src@, d + 1);
        reveal_with_fuel(pow10, 20);
        assert(pow10(SIGNIFICANT_DIGITS as nat) == 10000000000000000000nat);
    }
    let mut mantissa: u64 = 0;
    let mut kept: usize = 0;
    let mut dropped: usize = 0;
    let mut i: usize = s;
    while i < f
        invariant
            s < d < f <= src.len(),
            s <= i <= f,
            forall|j: int| s <= j < d ==> is_digit(#[trigger] src@[j]),
            forall|j: int| d < j < f ==> is_digit(#[trigger] src@[j]),
            pow10(SIGNIFICANT_DIGITS as nat) == 10000000000000000000nat,
            ({
                let g = significant(float_digits(src@, s as int, d as int, i as int));
                &&& kept <= SIGNIFICANT_DIGITS
                &&& kept == (if g.len() <= SIGNIFICANT_DIGITS { g.len() } else { SIGNIFICANT_DIGITS as nat })
                &&& dropped == g.len() - kept
                &&& mantissa == digits_value(g.take(kept as int))
                &&& mantissa < pow10(kept as nat)
                &&& forall|j: int| 0 <= j < g.len() ==> is_digit(#[trigger] g[j])
            }),
            dropped <= i,
        decreases f - i,
    {
        let ghost before = float_digits(src@, s as int, d as int, i as int);
        if i == d {
            i = i + 1;
            assert(float_digits(src@, s as int, d as int, i as int) =~= before);
            continue;
        }
        let c = src[i];
        proof {
            lemma_significant_push(before, c);
            if i < d {
                assert(float_digits(src@, s as int, d as int, i + 1) =~= before.push(c));
            } else {
                assert(float_digits(src@, s as int, d as int, i + 1) =~= before.push(c));
            }
        }
        let ghost g = significant(before);
        let ghost g2 = significant(before.push(c));
        if kept == 0 && c == ('0' as u8) {
            proof {
                assert(g2 =~= Seq::<u8>::empty());
            }
        } else if kept < SIGNIFICANT_DIGITS {
            proof {
                assert(g.len() == kept);
                assert(g2 =~= g.push(c));
                assert(g2.take(kept + 1) =~= g.take(kept as int).push(c));
                lemma_digits_value_push(g.take(kept as int), c);
                assert(mantissa * 10 + 9 < pow10((kept + 1) as nat)) by (nonlinear_arith)
                    requires mantissa < pow10(kept as nat), pow10((kept + 1) as nat) == 10 * pow10(kept as nat);
                assert(pow10((kept + 1) as nat) <= pow10(SIGNIFICANT_DIGITS as nat)) by {
                    lemma_pow10_mono((kept + 1) as nat, SIGNIFICANT_DIGITS as nat);
                }
                assert forall|j: int| 0 <= j < g2.len() implies is_digit(#[trigger] g2[j]) by {
                    if j < g.len() {
                        assert(g2[j] == g[j]);
                    }
                }
            }
            mantissa = mantissa * 10 + (c - ('0' as u8)) as u64;
            kept = kept + 1;
        } else {
            proof {
                assert(g2 =~= g.push(c));
                assert(g2.take(kept as int) =~= g.take(kept as int));
                assert forall|j: int| 0 <= j < g2.len() implies is_digit(#[trigger] g2[j]) by {
                    if j < g.len() {
                        assert(g2[j] == g[j]);
                    }
                }
            }
            dropped = dropped + 1;
        }
        i = i + 1;
    }
    proof {
        assert(float_digits(src@, s as int, d as int, f as int) =~= src@.subrange(s as int, d as int)
            + src@.subrange(d + 1, f as int));
    }
    (
        Token {
            kind: TokenKind::Float(Decimal { mantissa, dropped, scale: f - d - 1 }),
            lexeme: lexeme(src, s, f),
        },
        f,
    )
}

proof fn lemma_pow10_mono(a: nat, b: nat)
    requires
        a <= b,
    ensures
        pow10(a) <= pow10(b),
    decreases b - a,
{
    if a < b {
        lemma_pow10_mono(a, (b - 1) as nat);
    }
}

/// Scans the numeral that starts at `s`.
fn scan_number(src: &Vec<u8>, s: usize) -> (r: Result<(Token, usize), ParseError>)
    requires
        s < src.len(),
        is_digit(src@[s as int]),
    ensures
        match numeral_at(src@, s as int) {
            Ok((t, q)) => r matches Ok((tok, q2)) && tok@ == t && q2 == q,
            Err(e) => r == Err::<(Token, usize), ParseError>(e),
        },
{
    let d = digits_end_from(src, s);
    proof {
        lemma_digits_end(src@, s as int);
    }
    if peek_char(src, d) == ('.' as u8) {
        return Ok(scan_float(src, s, d));
    }
    let v = run_digits(src, s, d, 0, Ghost(Seq::empty()));
    proof {
        assert(Seq::<u8>::empty() + src@.subrange(s as int, d as int) =~= src@.subrange(
            s as int,
            d as int,
        ));
    }
    match v {
        None => Err(ParseError::InvalidNumeral),
        Some(v) => Ok((Token { kind: TokenKind::Integer(v), lexeme: lexeme(src, s, d) }, d)),
    }
}

/// Scans the identifier that starts at `s`: a keyword or a variable.
fn scan_name(src: &Vec<u8>, s: usize) -> (r: (Token, usize))
    requires
        s < src.len(),
    ensures
        r.0@ == (word_kind(src@.subrange(s as int, name_end(src@, s + 1))), src@.subrange(
            s as int,
            name_end(src@, s + 1),
        )),
        r.1 == name_end(src@, s + 1),
{
    let e = name_end_from(src, s + 1);
    proof {
        lemma_name_end(src@, s + 1);
    }
    let word = lexeme(src, s, e);
    let kind = match to_keyword(word.as_slice()) {
        Some(k) => k,
        None => TokenKind::Variable,
    };
    (Token { kind, lexeme: word }, e)
}

/// Scans one token from position `p`: the token and the position after it.
fn scan_token(src: &Vec<u8>, p: usize) -> (r: Result<(Token, usize), ParseError>)
    requires
        p <= src.len(),
    ensures
        match scan_at(src@, p as int) {
            Ok((t, q)) => r matches Ok((tok, q2)) && tok@ == t && q2 == q,
            Err(e) => r == Err::<(Token, usize), ParseError>(e),
        },
{
    let s = slurp_whitespace(src, p);
    proof {
        lemma_skip_spaces(src@, p as int);
    }
    if s >= src.len() {
        return Ok((Token { kind: TokenKind::End, lexeme: Vec::new() }, s));
    }
    let c = src[s];
    match operator_kind(c, peek_char(src, s + 1)) {
        Some((k, n)) => {
            assert(s + n <= src.len()) by {
                if n == 2 {
                    assert(byte_at(src@, s + 1) == ('=' as u8));
                }
            }
            Ok((Token { kind: k, lexeme: lexeme(src, s, s + n) }, s + n))
        },
        None => {
            if is_digit_byte(c) {
                scan_number(src, s)
            } else {
                Ok(scan_name(src, s))
            }
        },
    }
}

/// A lazy token stream over a source, with unlimited lookahead: tokens that
/// have been looked at but not taken wait in a queue.
pub struct Scanner {
    source: Vec<u8>,
    tokens: VecDeque<Token>,
    current: usize,
    rest: Ghost<TokenStream>,
}

impl Scanner {
    /// The bytes being scanned.
    pub closed spec fn source(&self) -> Seq<u8> {
        self.source@
    }

    /// The tokens still to be taken from this scanner.
    pub closed spec fn stream(&self) -> TokenStream {
        self.rest@
    }

    /// The queue holds the first tokens of the stream, and scanning on from the
    /// cursor yields the ones after them.
    pub closed spec fn wf(&self) -> bool {
        &&& self.current <= self.source.len()
        &&& forall|j: int|
            0 <= j < self.tokens@.len() ==> tok_at(self.rest@, j) == Ok::<TokenView, ParseError>(
                #[trigger] self.tokens@[j]@,
            )
        &&& forall|i: int|
            i >= 0 ==> tok_at(self.rest@, self.tokens@.len() + i) == #[trigger] tok_at(
                stream_from(self.source@, self.current as int),
                i,
            )
    }

    /// A scanner at the start of `source`, with nothing looked at yet.
    pub fn new(source: &str) -> (r: Scanner)
        ensures
            r.wf(),
            r.source() == source.spec_bytes(),
            r.stream() == stream_from(source.spec_bytes(), 0),
    {
        let bytes = vstd::slice::slice_to_vec(source.as_bytes());
        Scanner {
            source: bytes,
            tokens: VecDeque::new(),
            current: 0,
            rest: Ghost(stream_from(source.spec_bytes(), 0)),
        }
    }

    /// Scans one more token into the queue.
    fn next(&mut self) -> (r: Result<(), ParseError>)
        requires
            old(self).wf(),
        ensures
            final(self).wf(),
            final(self).source() == old(self).source(),
            final(self).stream() == old(self).stream(),
            r is Ok ==> final(self).tokens@.len() == old(self).tokens@.len() + 1,
            r matches Err(e) ==> tok_at(old(self).stream(), old(self).tokens@.len() as int) == Err::<
                TokenView,
                ParseError,
            >(e) && final(self).tokens@.len() == old(self).tokens@.len(),
    {
        let ghost n = self.tokens@.len() as int;
        proof {
            lemma_stream_step(self.source@, self.current as int);
            assert(tok_at(self.rest@, n + 0) == tok_at(
                stream_from(self.source@, self.current as int),
                0,
            ));
        }
        match scan_token(&self.source, self.current) {
            Err(e) => Err(e),
            Ok((tok, q)) => {
                let ghost c = self.current as int;
                self.tokens.push_back(tok);
                self.current = q;
                proof {
                    assert forall|i: int| i >= 0 implies tok_at(self.rest@, self.tokens@.len() + i)
                        == #[trigger] tok_at(stream_from(self.source@, self.current as int), i) by {
                        assert(tok_at(self.rest@, n + (i + 1)) == tok_at(
                            stream_from(self.source@, c),
                            i + 1,
                        ));
                    }
                }
                Ok(())
            },
        }
    }

    /// Every token up to and including `End`, or the first failure.
    pub fn scan_all(self) -> (r: Result<Vec<Token>, ParseError>)
        requires
            self.wf(),
        ensures
            match upto_end(self.stream()) {
                Ok(v) => r matches Ok(w) && token_views(w@) == v,
                Err(e) => r == Err::<Vec<Token>, ParseError>(e),
            },
    {
        let ghost s_init = self.stream();
        let mut sc = self;
        let mut out: Vec<Token> = Vec::new();
        loop
            invariant
                sc.wf(),
                s_init == self.stream(),
                match upto_end(s_init) {
                    Ok(v) => upto_end(sc.stream()) matches Ok(v2) && v == token_views(out@) + v2,
                    Err(e) => upto_end(sc.stream()) == Err::<Seq<TokenView>, ParseError>(e),
                },
            decreases sc.stream().toks.len(),
        {
            let ghost before = sc.stream();
            let ghost prev = token_views(out@);
            let tok = match sc.next_token() {
                Ok(tok) => tok,
                Err(e) => {
                    assert(upto_end(before) == Err::<Seq<TokenView>, ParseError>(e));
                    assert(upto_end(s_init) == Err::<Seq<TokenView>, ParseError>(e));
                    return Err(e);
                },
            };
            let end = tok.kind == TokenKind::End;
            out.push(tok);
            proof {
                assert(token_views(out@) =~= prev.push(tok@));
                if before.toks.len() == 0 {
                    assert(tok@ == end_token());
                } else {
                    assert(tok@ == before.toks[0]);
                }
            }
            if end {
                proof {
                    assert(upto_end(before) == Ok::<Seq<TokenView>, ParseError>(seq![tok@]));
                    assert(prev.push(tok@) =~= prev + seq![tok@]);
                    assert(upto_end(s_init) == Ok::<Seq<TokenView>, ParseError>(
                        token_views(out@),
                    ));
                }
                return Ok(out);
            }
            proof {
                assert(before.toks.len() > 0);
                match upto_end(s_init) {
                    Ok(v) => {
                        let v2 = upto_end(sc.stream())->Ok_0;
                        assert(prev + (seq![tok@] + v2) =~= prev.push(tok@) + v2);
                    },
                    Err(e) => {},
                }
            }
        }
    }

    /// Looks at token `idx` of the stream without taking it.
    pub fn peek_token(&mut self, idx: usize) -> (r: Result<&Token, ParseError>)
        requires
            old(self).wf(),
        ensures
            final(self).wf(),
            final(self).source() == old(self).source(),
            final(self).stream() == old(self).stream(),
            match tok_at(old(self).stream(), idx as int) {
                Ok(t) => r matches Ok(tok) && tok@ == t,
                Err(e) => r == Err::<&Token, ParseError>(e),
            },
    {
        while self.tokens.len() <= idx
            invariant
                self.wf(),
                self.source() == old(self).source(),
                self.stream() == old(self).stream(),
            decreases idx + 1 - self.tokens@.len(),
        {
            match self.next() {
                Ok(()) => {},
                Err(e) => {
                    assert(tok_at(self.rest@, idx as int) == Err::<TokenView, ParseError>(e));
                    return Err(e);
                },
            }
        }
        assert(tok_at(self.rest@, idx as int) == Ok::<TokenView, ParseError>(
            self.tokens@[idx as int]@,
        ));
        Ok(&self.tokens[idx])
    }

    /// Takes the next token of the stream.
    pub fn next_token(&mut self) -> (r: Result<Token, ParseError>)
        requires
            old(self).wf(),
        ensures
            final(self).wf(),
            final(self).source() == old(self).source(),
            match tok_at(old(self).stream(), 0) {
                Ok(t) => r matches Ok(tok) && tok@ == t && final(self).stream() == advance_stream(
                    old(self).stream(),
                ),
                Err(e) => r == Err::<Token, ParseError>(e) && final(self).stream() == old(
                    self,
                ).stream(),
            },
    {
        if self.tokens.len() == 0 {
            match self.next() {
                Ok(()) => {},
                Err(e) => {
                    return Err(e);
                },
            }
        }
        let ghost q0 = self.tokens@;
        let ghost s0 = self.rest@;
        assert(tok_at(s0, 0) == Ok::<TokenView, ParseError>(q0[0]@));
        let tok = self.tokens.pop_front().unwrap();
        proof {
            lemma_advance_stream(s0);
            self.rest = Ghost(advance_stream(s0));
            assert forall|j: int| 0 <= j < self.tokens@.len() implies tok_at(self.rest@, j)
                == Ok::<TokenView, ParseError>(#[trigger] self.tokens@[j]@) by {
                assert(q0[j + 1] == self.tokens@[j]);
                assert(tok_at(s0, j + 1) == Ok::<TokenView, ParseError>(q0[j + 1]@));
            }
            assert forall|i: int| i >= 0 implies tok_at(self.rest@, self.tokens@.len() + i)
                == #[trigger] tok_at(stream_from(self.source@, self.current as int), i) by {
                assert(tok_at(s0, q0.len() + i) == tok_at(
                    stream_from(self.source@, self.current as int),
                    i,
                ));
            }
        }
        Ok(tok)
    }
}

} // verus!
