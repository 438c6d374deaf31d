//! Properties that relate scanning and parsing across inputs.

use vstd::prelude::*;

use crate::ast::ExprModel;
use crate::error::ParseError;
use crate::parse::{
    expr_at, implicit_times, lemma_expr_at_advances, infix_power, loop_at, parse_spec, postfix_power,
    rhs_power, starts_operand, MINUS_PREFIX, MULTIPLY_DIVIDE_MOD,
};
use crate::scan::{
    byte_at, digits_end, is_digit, is_space, lemma_scan_at_bounds, lemma_stream_step, name_end,
    numeral_at, operator_of, scan_at, skip_spaces, stream_from, tok_at, tokens_of, TokenKind,
    TokenStream, TokenView,
};

verus! {

/// A parse result with every token index moved on by `d`.
pub open spec fn shifted(r: Result<(ExprModel, int), ParseError>, d: int) -> Result<
    (ExprModel, int),
    ParseError,
> {
    match r {
        Ok((e, k)) => Ok((e, k + d)),
        Err(e) => Err(e),
    }
}

/// From index `j` on, `s1` is `s2` moved on by `d` tokens.
pub open spec fn agree_from(s1: TokenStream, s2: TokenStream, j: int, d: int) -> bool {
    &&& s1.toks.len() == s2.toks.len() + d
    &&& forall|m: int| m >= j ==> #[trigger] tok_at(s1, m) == tok_at(s2, m - d)
}

proof fn lemma_agree_expr_at(s1: TokenStream, s2: TokenStream, j: int, d: int, k: int, bp: u8)
    requires
        0 <= j <= k,
        0 <= k - d,
        agree_from(s1, s2, j, d),
    ensures
        expr_at(s1, k, bp) == shifted(expr_at(s2, k - d, bp), d),
    decreases s1.toks.len() - k, 1int,
{
    assert(tok_at(s1, k) == tok_at(s2, k - d));
    if 0 <= k < s1.toks.len() {
        let t = s1.toks[k];
        assert(t == s2.toks[k - d]);
        if t.0 is Variable || t.0 is Integer || t.0 is Float {
            lemma_agree_loop_at(s1, s2, j, d, crate::parse::leaf_of(t), k + 1, bp);
        } else if t.0 is LeftParen {
            lemma_agree_expr_at(s1, s2, j, d, k + 1, 0);
            lemma_expr_at_advances(s1, k + 1, 0);
            if let Ok((inner, k2)) = expr_at(s1, k + 1, 0) {
                assert(tok_at(s1, k2) == tok_at(s2, k2 - d));
                if k < k2 < s1.toks.len() {
                    lemma_agree_loop_at(s1, s2, j, d, inner, k2 + 1, bp);
                }
            }
        } else if t.0 is Minus {
            lemma_agree_expr_at(s1, s2, j, d, k + 1, MINUS_PREFIX);
            if let Ok((r, k2)) = expr_at(s1, k + 1, MINUS_PREFIX) {
                if k < k2 <= s1.toks.len() {
                    lemma_agree_loop_at(s1, s2, j, d, ExprModel::Unary(t, Box::new(r)), k2, bp);
                }
            }
        }
    }
}

proof fn lemma_agree_loop_at(
    s1: TokenStream,
    s2: TokenStream,
    j: int,
    d: int,
    lhs: ExprModel,
    k: int,
    bp: u8,
)
    requires
        0 <= j <= k,
        0 <= k - d,
        agree_from(s1, s2, j, d),
    ensures
        loop_at(s1, lhs, k, bp) == shifted(loop_at(s2, lhs, k - d, bp), d),
    decreases s1.toks.len() - k, 2int,
{
    assert(tok_at(s1, k) == tok_at(s2, k - d));
    if let Ok(t) = tok_at(s1, k) {
        if !(t.0 is End || !(0 <= k < s1.toks.len())) {
            match postfix_power(t.0) {
                Some(p) => if p >= bp {
                    lemma_agree_loop_at(s1, s2, j, d, ExprModel::Unary(t, Box::new(lhs)), k + 1, bp);
                },
                None => if let Some(lbp) = infix_power(t.0) {
                    if lbp >= bp {
                        lemma_agree_expr_at(s1, s2, j, d, k + 1, rhs_power(t.0, lbp));
                        if let Ok((r, k2)) = expr_at(s1, k + 1, rhs_power(t.0, lbp)) {
                            if k < k2 <= s1.toks.len() {
                                lemma_agree_loop_at(
                                    s1,
                                    s2,
                                    j,
                                    d,
                                    ExprModel::Binary(Box::new(lhs), t, Box::new(r)),
                                    k2,
                                    bp,
                                );
                            }
                        }
                    }
                } else if starts_operand(t.0) && MULTIPLY_DIVIDE_MOD >= bp {
                    lemma_agree_expr_at(s1, s2, j, d, k, MULTIPLY_DIVIDE_MOD);
                    if let Ok((r, k2)) = expr_at(s1, k, MULTIPLY_DIVIDE_MOD) {
                        if k < k2 <= s1.toks.len() {
                            lemma_agree_loop_at(
                                s1,
                                s2,
                                j,
                                d,
                                ExprModel::Binary(Box::new(lhs), implicit_times(), Box::new(r)),
                                k2,
                                bp,
                            );
                        }
                    }
                },
            }
        }
    }
}

/// The stream with token `t` put in at index `i`.
pub open spec fn insert_token(s: TokenStream, i: int, t: TokenView) -> TokenStream {
    TokenStream { toks: s.toks.insert(i, t), fault: s.fault }
}

/// A parse result of a stream, carried over to the stream with one token put
/// in at index `i`: indices past `i` move on by one.
pub open spec fn past_insert(r: Result<(ExprModel, int), ParseError>, i: int) -> Result<
    (ExprModel, int),
    ParseError,
> {
    match r {
        Ok((e, j)) => Ok((e, if j <= i { j } else { j + 1 })),
        Err(e) => Err(e),
    }
}

/// After any operand, a next token that starts another operand multiplies
/// the two exactly as an explicit `*` there would, at every binding power:
/// the same tree, or the same failure.
pub proof fn lemma_operand_product_as_explicit(s: TokenStream, lhs: ExprModel, k: int, min_bp: u8)
    requires
        0 <= k < s.toks.len(),
        starts_operand(s.toks[k].0),
    ensures
        loop_at(insert_token(s, k, implicit_times()), lhs, k, min_bp) == past_insert(
            loop_at(s, lhs, k, min_bp),
            k,
        ),
{
    let s1 = insert_token(s, k, implicit_times());
    assert(s1.toks[k] == implicit_times());
    assert forall|m: int| m >= k + 1 implies #[trigger] tok_at(s1, m) == tok_at(s, m - 1) by {
        if m < s1.toks.len() {
            assert(s1.toks[m] == s.toks[m - 1]);
        }
    }
    assert(agree_from(s1, s, k + 1, 1));
    assert(tok_at(s1, k) == Ok::<TokenView, ParseError>(implicit_times()));
    assert(tok_at(s, k) == Ok::<TokenView, ParseError>(s.toks[k]));
    assert(rhs_power(TokenKind::Multiply, MULTIPLY_DIVIDE_MOD) == MULTIPLY_DIVIDE_MOD);
    if MULTIPLY_DIVIDE_MOD >= min_bp {
        lemma_agree_expr_at(s1, s, k + 1, 1, k + 1, MULTIPLY_DIVIDE_MOD);
        lemma_expr_at_advances(s, k, MULTIPLY_DIVIDE_MOD);
        if let Ok((r, k3)) = expr_at(s, k, MULTIPLY_DIVIDE_MOD) {
            let b = ExprModel::Binary(Box::new(lhs), implicit_times(), Box::new(r));
            lemma_agree_loop_at(s1, s, k + 1, 1, b, k3 + 1, min_bp);
            crate::parse::lemma_loop_at_advances(s, b, k3, min_bp);
        }
    }
}

/// Writing `*` between a variable or numeral and an operand that follows it
/// at once gives the same tree, at every binding power: the implicit product
/// is the explicit one. `a^2b` parses as `a^2*b` does.
pub proof fn lemma_implicit_product_as_explicit(s: TokenStream, k: int, min_bp: u8)
    requires
        0 <= k,
        k + 1 < s.toks.len(),
        s.toks[k].0 is Variable || s.toks[k].0 is Integer || s.toks[k].0 is Float,
        starts_operand(s.toks[k + 1].0),
    ensures
        expr_at(insert_token(s, k + 1, implicit_times()), k, min_bp) == past_insert(
            expr_at(s, k, min_bp),
            k + 1,
        ),
{
    let s1 = insert_token(s, k + 1, implicit_times());
    let leaf = crate::parse::leaf_of(s.toks[k]);
    assert(s1.toks[k] == s.toks[k]);
    assert(expr_at(s1, k, min_bp) == loop_at(s1, leaf, k + 1, min_bp));
    assert(expr_at(s, k, min_bp) == loop_at(s, leaf, k + 1, min_bp));
    lemma_operand_product_as_explicit(s, leaf, k + 1, min_bp);
}

/// A source whose first token is an operator with no prefix meaning (any
/// operator but `-` and `(`) is rejected, with no partial tree.
pub proof fn lemma_operator_lead_rejected(src: Seq<u8>)
    requires
        skip_spaces(src, 0) < src.len(),
        operator_of(src[skip_spaces(src, 0)], byte_at(src, skip_spaces(src, 0) + 1)) matches Some(
            (k, _),
        ) && k !is Minus && k !is LeftParen,
    ensures
        parse_spec(stream_from(src, 0)) == Err::<(ExprModel, int), ParseError>(
            ParseError::UnsupportedConstruct,
        ),
{
    lemma_scan_at_bounds(src, 0);
    lemma_stream_step(src, 0);
}

/// A scan result with the position moved on by `d`.
pub open spec fn scan_shifted(r: Result<(TokenView, int), ParseError>, d: int) -> Result<
    (TokenView, int),
    ParseError,
> {
    match r {
        Ok((t, q)) => Ok((t, q + d)),
        Err(e) => Err(e),
    }
}

/// Every byte of `w` is whitespace.
pub open spec fn all_spaces(w: Seq<u8>) -> bool {
    forall|i: int| 0 <= i < w.len() ==> is_space(#[trigger] w[i])
}

proof fn lemma_prefix_skip_spaces(a: Seq<u8>, b: Seq<u8>, q: int)
    requires
        0 <= q <= b.len(),
    ensures
        skip_spaces(a + b, a.len() + q) == a.len() + skip_spaces(b, q),
    decreases b.len() - q,
{
    if q < b.len() {
        assert((a + b)[a.len() + q] == b[q]);
        lemma_prefix_skip_spaces(a, b, q + 1);
    }
}

proof fn lemma_prefix_name_end(a: Seq<u8>, b: Seq<u8>, q: int)
    requires
        0 <= q <= b.len(),
    ensures
        name_end(a + b, a.len() + q) == a.len() + name_end(b, q),
    decreases b.len() - q,
{
    if q < b.len() {
        assert((a + b)[a.len() + q] == b[q]);
        lemma_prefix_name_end(a, b, q + 1);
    }
}

proof fn lemma_prefix_digits_end(a: Seq<u8>, b: Seq<u8>, q: int)
    requires
        0 <= q <= b.len(),
    ensures
        digits_end(a + b, a.len() + q) == a.len() + digits_end(b, q),
    decreases b.len() - q,
{
    if q < b.len() {
        assert((a + b)[a.len() + q] == b[q]);
        lemma_prefix_digits_end(a, b, q + 1);
    }
}

/// Scanning inside `b` does not look at what stands before it.
proof fn lemma_prefix_scan_at(a: Seq<u8>, b: Seq<u8>, q: int)
    requires
        0 <= q <= b.len(),
    ensures
        scan_at(a + b, a.len() + q) == scan_shifted(scan_at(b, q), a.len() as int),
{
    let src = a + b;
    let n = a.len() as int;
    lemma_prefix_skip_spaces(a, b, q);
    crate::scan::lemma_scan_at_bounds(b, q);
    crate::scan::lemma_skip_spaces(b, q);
    let s = skip_spaces(b, q);
    assert forall|i: int| #![trigger byte_at(b, i)] 0 <= i ==> byte_at(src, n + i) == byte_at(b, i) by {
        if 0 <= i < b.len() {
            assert(src[n + i] == b[i]);
        }
    }
    assert forall|x: int, y: int| 0 <= x <= y <= b.len() implies #[trigger] b.subrange(x, y)
        == src.subrange(n + x, n + y) by {
        assert(b.subrange(x, y) =~= src.subrange(n + x, n + y));
    }
    if s < b.len() {
        assert(src[n + s] == b[s]);
        assert(byte_at(src, n + s + 1) == byte_at(b, s + 1));
        lemma_prefix_name_end(a, b, s + 1);
        lemma_prefix_digits_end(a, b, s);
        crate::scan::lemma_name_end(b, s + 1);
        crate::scan::lemma_digits_end(b, s);
        let d = digits_end(b, s);
        assert(byte_at(src, n + d) == byte_at(b, d));
        if d < b.len() {
            lemma_prefix_digits_end(a, b, d + 1);
            crate::scan::lemma_digits_end(b, d + 1);
            let f = digits_end(b, d + 1);
            assert(b.subrange(s, d) + b.subrange(d + 1, f) =~= src.subrange(n + s, n + d)
                + src.subrange(n + d + 1, n + f));
        }
        match operator_of(b[s], byte_at(b, s + 1)) {
            Some((k, m)) => {
                assert(b.subrange(s, s + m) == src.subrange(n + s, n + s + m));
            },
            None => {
                if is_digit(b[s]) {
                    assert(numeral_at(src, n + s) == scan_shifted(numeral_at(b, s), n));
                }
            },
        }
    }
}

/// What stands before `b` does not change the tokens scanned inside it.
proof fn lemma_prefix_stream(a: Seq<u8>, b: Seq<u8>, q: int)
    requires
        0 <= q <= b.len(),
    ensures
        stream_from(a + b, a.len() + q) == stream_from(b, q),
    decreases b.len() - q,
{
    lemma_prefix_scan_at(a, b, q);
    lemma_scan_at_bounds(b, q);
    if let Ok((t, q1)) = scan_at(b, q) {
        if !(t.0 is End) {
            lemma_prefix_stream(a, b, q1);
        }
    }
}

proof fn lemma_spaces_to_end(src: Seq<u8>, i: int)
    requires
        0 <= i <= src.len(),
        forall|j: int| i <= j < src.len() ==> is_space(#[trigger] src[j]),
    ensures
        skip_spaces(src, i) == src.len(),
    decreases src.len() - i,
{
    if i < src.len() {
        lemma_spaces_to_end(src, i + 1);
    }
}

/// Whitespace before `b` is skipped before the first token.
proof fn lemma_leading_spaces(w: Seq<u8>, b: Seq<u8>, i: int)
    requires
        all_spaces(w),
        0 <= i <= w.len(),
    ensures
        skip_spaces(w + b, i) == skip_spaces(w + b, w.len() as int),
    decreases w.len() - i,
{
    if i < w.len() {
        assert((w + b)[i] == w[i]);
        lemma_leading_spaces(w, b, i + 1);
    }
}

proof fn lemma_suffix_skip_spaces(b: Seq<u8>, w: Seq<u8>, q: int)
    requires
        all_spaces(w),
        0 <= q <= b.len(),
    ensures
        skip_spaces(b + w, q) == if skip_spaces(b, q) < b.len() {
            skip_spaces(b, q)
        } else {
            (b + w).len() as int
        },
    decreases b.len() - q,
{
    if q < b.len() {
        assert((b + w)[q] == b[q]);
        lemma_suffix_skip_spaces(b, w, q + 1);
    } else {
        assert forall|j: int| q <= j < (b + w).len() implies is_space(#[trigger] (b + w)[j]) by {
            assert((b + w)[j] == w[j - b.len()]);
        }
        lemma_spaces_to_end(b + w, q);
    }
}

proof fn lemma_suffix_name_end(b: Seq<u8>, w: Seq<u8>, q: int)
    requires
        all_spaces(w),
        0 <= q <= b.len(),
    ensures
        name_end(b + w, q) == name_end(b, q),
    decreases b.len() - q,
{
    if q < b.len() {
        assert((b + w)[q] == b[q]);
        lemma_suffix_name_end(b, w, q + 1);
    } else if w.len() > 0 {
        assert((b + w)[q] == w[0]);
    } else {
        assert(b + w =~= b);
    }
}

proof fn lemma_suffix_digits_end(b: Seq<u8>, w: Seq<u8>, q: int)
    requires
        all_spaces(w),
        0 <= q <= b.len(),
    ensures
        digits_end(b + w, q) == digits_end(b, q),
    decreases b.len() - q,
{
    if q < b.len() {
        assert((b + w)[q] == b[q]);
        lemma_suffix_digits_end(b, w, q + 1);
    } else if w.len() > 0 {
        assert((b + w)[q] == w[0]);
    } else {
        assert(b + w =~= b);
    }
}

/// Whitespace after `b` changes no token scanned inside it; at the end of `b`
/// both yield `End`.
proof fn lemma_suffix_scan_at(b: Seq<u8>, w: Seq<u8>, q: int)
    requires
        all_spaces(w),
        0 <= q <= b.len(),
    ensures
        skip_spaces(b, q) < b.len() ==> scan_at(b + w, q) == scan_at(b, q),
        skip_spaces(b, q) >= b.len() ==> (scan_at(b + w, q) matches Ok((t, _)) && scan_at(b, q)
            matches Ok((t2, _)) && t == t2 && t.0 is End),
{
    let src = b + w;
    lemma_suffix_skip_spaces(b, w, q);
    crate::scan::lemma_skip_spaces(b, q);
    let s = skip_spaces(b, q);
    assert forall|i: int| #![trigger byte_at(b, i)] 0 <= i implies (if i < b.len() {
        byte_at(src, i) == byte_at(b, i)
    } else {
        byte_at(b, i) == 0u8 && (is_space(byte_at(src, i)) || byte_at(src, i) == 0u8)
    }) by {
        if 0 <= i < b.len() {
            assert(src[i] == b[i]);
        } else if i < src.len() {
            assert(src[i] == w[i - b.len()]);
        }
    }
    assert forall|x: int, y: int| 0 <= x <= y <= b.len() implies #[trigger] b.subrange(x, y)
        == src.subrange(x, y) by {
        assert(b.subrange(x, y) =~= src.subrange(x, y));
    }
    if s < b.len() {
        assert(src[s] == b[s]);
        lemma_suffix_name_end(b, w, s + 1);
        lemma_suffix_digits_end(b, w, s);
        crate::scan::lemma_name_end(b, s + 1);
        crate::scan::lemma_digits_end(b, s);
        let d = digits_end(b, s);
        if d < b.len() {
            lemma_suffix_digits_end(b, w, d + 1);
            crate::scan::lemma_digits_end(b, d + 1);
        }
        assert(byte_at(src, s + 1) == byte_at(b, s + 1) || byte_at(src, s + 1) != ('=' as u8));
        assert(operator_of(src[s], byte_at(src, s + 1)) == operator_of(b[s], byte_at(b, s + 1)));
        assert(byte_at(src, d) == byte_at(b, d) || (byte_at(src, d) != ('.' as u8) && byte_at(
            b,
            d,
        ) != ('.' as u8)));
        if is_digit(b[s]) {
            assert(numeral_at(src, s) == numeral_at(b, s));
        }
    }
}

/// Whitespace after `b` does not change the tokens scanned from it.
proof fn lemma_suffix_stream(b: Seq<u8>, w: Seq<u8>, q: int)
    requires
        all_spaces(w),
        0 <= q <= b.len(),
    ensures
        stream_from(b + w, q) == stream_from(b, q),
    decreases b.len() - q,
{
    lemma_suffix_scan_at(b, w, q);
    lemma_scan_at_bounds(b, q);
    lemma_scan_at_bounds(b + w, q);
    if skip_spaces(b, q) < b.len() {
        if let Ok((t, q1)) = scan_at(b, q) {
            if !(t.0 is End) {
                lemma_suffix_stream(b, w, q1);
            }
        }
    }
}

/// Scanning ignores whitespace before and after the text: `lead + src + trail`
/// yields the same tokens, kinds and lexemes, as `src`, or the same failure.
pub proof fn lemma_scan_ignores_outer_whitespace(lead: Seq<u8>, src: Seq<u8>, trail: Seq<u8>)
    requires
        all_spaces(lead),
        all_spaces(trail),
    ensures
        tokens_of(lead + src + trail) == tokens_of(src),
{
    let full = lead + (src + trail);
    assert(lead + src + trail =~= full);
    lemma_leading_spaces(lead, src + trail, 0);
    lemma_scan_at_bounds(full, 0);
    lemma_scan_at_bounds(full, lead.len() as int);
    assert(scan_at(full, 0) == scan_at(full, lead.len() as int));
    assert(stream_from(full, 0) == stream_from(full, lead.len() as int));
    lemma_prefix_stream(lead, src + trail, 0);
    lemma_suffix_stream(src, trail, 0);
}

/// The bytes of the operators: `( ) - + * / ^ % , = < > !`.
pub open spec fn is_operator_byte(c: u8) -> bool {
    c == ('(' as u8) || c == (')' as u8) || c == ('-' as u8) || c == ('+' as u8) || c == ('*' as u8)
        || c == ('/' as u8) || c == ('^' as u8) || c == ('%' as u8) || c == (',' as u8) || c == (
    '=' as u8) || c == ('<' as u8) || c == ('>' as u8) || c == ('!' as u8)
}

/// `a` and `b` meet next to an operator, and not inside `<=`, `>=` or `!=`.
pub open spec fn meet_at_operator(a: Seq<u8>, b: Seq<u8>) -> bool {
    &&& a.len() > 0
    &&& b.len() > 0
    &&& is_operator_byte(a.last()) || is_operator_byte(b[0])
    &&& !((a.last() == ('<' as u8) || a.last() == ('>' as u8) || a.last() == ('!' as u8)) && b[0]
        == ('=' as u8))
}

proof fn lemma_split_skip_spaces(a: Seq<u8>, w: Seq<u8>, b: Seq<u8>, q: int)
    requires
        0 <= q <= a.len(),
        skip_spaces(a + b, q) < a.len(),
    ensures
        skip_spaces(a + w + b, q) == skip_spaces(a + b, q),
    decreases a.len() - q,
{
    crate::scan::lemma_skip_spaces(a + b, q);
    assert((a + b)[q] == a[q]);
    assert((a + w + b)[q] == a[q]);
    if is_space(a[q]) {
        lemma_split_skip_spaces(a, w, b, q + 1);
    }
}

proof fn lemma_split_spaces_to_b(a: Seq<u8>, w: Seq<u8>, b: Seq<u8>, q: int)
    requires
        all_spaces(w),
        0 <= q <= a.len(),
        skip_spaces(a + b, q) >= a.len(),
    ensures
        skip_spaces(a + b, q) == skip_spaces(a + b, a.len() as int),
        skip_spaces(a + w + b, q) == skip_spaces(a + w + b, (a.len() + w.len()) as int),
    decreases a.len() - q,
{
    if q < a.len() {
        assert((a + b)[q] == a[q]);
        assert((a + w + b)[q] == a[q]);
        lemma_split_spaces_to_b(a, w, b, q + 1);
    } else {
        lemma_leading_spaces_from(a + w + b, a.len() as int, (a.len() + w.len()) as int);
    }
}

proof fn lemma_leading_spaces_from(src: Seq<u8>, i: int, m: int)
    requires
        0 <= i <= m <= src.len(),
        forall|j: int| i <= j < m ==> is_space(#[trigger] src[j]),
    ensures
        skip_spaces(src, i) == skip_spaces(src, m),
    decreases m - i,
{
    if i < m {
        lemma_leading_spaces_from(src, i + 1, m);
    }
}

proof fn lemma_split_name_end(a: Seq<u8>, w: Seq<u8>, b: Seq<u8>, i: int)
    requires
        all_spaces(w),
        w.len() > 0,
        0 <= i <= a.len(),
        (b.len() == 0 || crate::scan::ends_identifier(b[0])) || (i < a.len()
            && crate::scan::ends_identifier(a.last())),
    ensures
        name_end(a + w + b, i) == name_end(a + b, i),
        name_end(a + b, i) <= a.len(),
    decreases a.len() - i,
{
    if i < a.len() {
        assert((a + b)[i] == a[i]);
        assert((a + w + b)[i] == a[i]);
        if i + 1 == a.len() {
            assert(a.last() == a[i]);
        }
        if !crate::scan::ends_identifier(a[i]) {
            lemma_split_name_end(a, w, b, i + 1);
        }
    } else {
        assert((a + w + b)[i] == w[0]);
        if b.len() > 0 {
            assert((a + b)[i] == b[0]);
        }
    }
}

proof fn lemma_split_digits_end(a: Seq<u8>, w: Seq<u8>, b: Seq<u8>, i: int)
    requires
        all_spaces(w),
        w.len() > 0,
        0 <= i <= a.len(),
        (b.len() == 0 || !is_digit(b[0])) || (i < a.len() && !is_digit(a.last())),
    ensures
        digits_end(a + w + b, i) == digits_end(a + b, i),
        digits_end(a + b, i) <= a.len(),
    decreases a.len() - i,
{
    if i < a.len() {
        assert((a + b)[i] == a[i]);
        assert((a + w + b)[i] == a[i]);
        if i + 1 == a.len() {
            assert(a.last() == a[i]);
        }
        if is_digit(a[i]) {
            lemma_split_digits_end(a, w, b, i + 1);
        }
    } else {
        assert((a + w + b)[i] == w[0]);
        if b.len() > 0 {
            assert((a + b)[i] == b[0]);
        }
    }
}

/// A token that starts inside `a` is scanned alike with or without the
/// whitespace `w` between `a` and `b`.
proof fn lemma_split_scan_at(a: Seq<u8>, w: Seq<u8>, b: Seq<u8>, q: int)
    requires
        all_spaces(w),
        w.len() > 0,
        meet_at_operator(a, b),
        0 <= q <= a.len(),
        skip_spaces(a + b, q) < a.len(),
    ensures
        scan_at(a + w + b, q) == scan_at(a + b, q),
        scan_at(a + b, q) matches Ok((_, e)) ==> e <= a.len(),
{
    let x = a + b;
    let y = a + w + b;
    let n = a.len() as int;
    lemma_split_skip_spaces(a, w, b, q);
    let s = skip_spaces(x, q);
    crate::scan::lemma_skip_spaces(x, q);
    assert(x[s] == a[s]);
    assert(y[s] == a[s]);
    assert forall|i: int| 0 <= i < n implies #[trigger] x[i] == y[i] by {
        assert(x[i] == a[i]);
        assert(y[i] == a[i]);
    }
    assert forall|u: int, v: int| 0 <= u <= v <= n implies #[trigger] x.subrange(u, v)
        == y.subrange(u, v) by {
        assert(x.subrange(u, v) =~= y.subrange(u, v));
    }
    assert(y[n] == w[0]);
    assert(b[0] == x[n]);
    assert(a.last() == x[n - 1]);
    let c = x[s];
    if s + 1 < n {
        assert(byte_at(x, s + 1) == byte_at(y, s + 1));
    } else {
        assert(byte_at(x, s + 1) == b[0]);
        assert(byte_at(y, s + 1) == w[0]);
    }
    assert(operator_of(c, byte_at(x, s + 1)) == operator_of(c, byte_at(y, s + 1)));
    if operator_of(c, byte_at(x, s + 1)) is None {
        assert(!is_operator_byte(c));
        if s + 1 == n {
            assert(is_operator_byte(b[0]));
        }
        if is_digit(c) {
            lemma_split_digits_end(a, w, b, s);
            let d = digits_end(x, s);
            crate::scan::lemma_digits_end(x, s);
            if d == n {
                assert(is_digit(x[n - 1]));
                assert(is_operator_byte(b[0]));
            }
            if d < n {
                assert(byte_at(x, d) == byte_at(y, d));
                if byte_at(x, d) == ('.' as u8) {
                    if d + 1 == n {
                        assert(a.last() == ('.' as u8));
                        assert(is_operator_byte(b[0]));
                    }
                    lemma_split_digits_end(a, w, b, d + 1);
                    crate::scan::lemma_digits_end(x, d + 1);
                    let f = digits_end(x, d + 1);
                    assert(x.subrange(s, d) == y.subrange(s, d));
                    assert(x.subrange(d + 1, f) == y.subrange(d + 1, f));
                    assert(x.subrange(s, f) == y.subrange(s, f));
                } else {
                    assert(x.subrange(s, d) == y.subrange(s, d));
                }
            } else {
                assert(byte_at(x, d) == b[0]);
                assert(byte_at(y, d) == w[0]);
                assert(x.subrange(s, d) == y.subrange(s, d));
            }
            assert(numeral_at(y, s) == numeral_at(x, s));
        } else {
            if s + 1 == n {
                assert(is_operator_byte(b[0]));
            }
            lemma_split_name_end(a, w, b, s + 1);
            crate::scan::lemma_name_end(x, s + 1);
            let e = name_end(x, s + 1);
            assert(x.subrange(s, e) == y.subrange(s, e));
        }
    } else {
        let m = match operator_of(c, byte_at(x, s + 1)) {
            Some((_, len)) => len,
            None => 0,
        };
        if m == 2 {
            assert(byte_at(x, s + 1) == ('=' as u8));
            assert(s + 1 < n);
        }
        assert(x.subrange(s, s + m) == y.subrange(s, s + m));
    }
}

/// Whitespace `w` put between `a` and `b`, where they meet next to an
/// operator, changes no token from position `q` of `a` on.
proof fn lemma_split_stream(a: Seq<u8>, w: Seq<u8>, b: Seq<u8>, q: int)
    requires
        all_spaces(w),
        w.len() > 0,
        meet_at_operator(a, b),
        0 <= q <= a.len(),
    ensures
        stream_from(a + w + b, q) == stream_from(a + b, q),
    decreases a.len() - q,
{
    let x = a + b;
    let y = a + w + b;
    crate::scan::lemma_skip_spaces(x, q);
    if skip_spaces(x, q) < a.len() {
        lemma_split_scan_at(a, w, b, q);
        lemma_scan_at_bounds(x, q);
        if let Ok((t, e)) = scan_at(x, q) {
            if !(t.0 is End) {
                lemma_split_stream(a, w, b, e);
            }
        }
    } else {
        lemma_split_spaces_to_b(a, w, b, q);
        let aw = a + w;
        assert(y =~= aw + b);
        lemma_scan_at_bounds(x, q);
        lemma_scan_at_bounds(x, a.len() as int);
        lemma_scan_at_bounds(y, q);
        lemma_scan_at_bounds(y, aw.len() as int);
        assert(scan_at(x, q) == scan_at(x, a.len() as int));
        assert(scan_at(y, q) == scan_at(y, aw.len() as int));
        assert(stream_from(x, q) == stream_from(x, a.len() as int));
        assert(stream_from(y, q) == stream_from(y, aw.len() as int));
        lemma_prefix_stream(a, b, 0);
        lemma_prefix_stream(aw, b, 0);
    }
}

/// Whitespace put between two parts of a text that meet next to an operator
/// (`( ) - + * / ^ % , = < > !`), but not inside `<=`, `>=` or `!=`, changes
/// no token: the same kinds and lexemes, or the same failure.
pub proof fn lemma_scan_ignores_whitespace_at_operator(a: Seq<u8>, w: Seq<u8>, b: Seq<u8>)
    requires
        all_spaces(w),
        meet_at_operator(a, b),
    ensures
        tokens_of(a + w + b) == tokens_of(a + b),
{
    if w.len() == 0 {
        assert(a + w + b =~= a + b);
    } else {
        lemma_split_stream(a, w, b, 0);
    }
}

} // verus!
