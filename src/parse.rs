//! The precedence-climbing parser, stated as spec functions over a token
//! stream, and the executable parser that follows them.

use vstd::prelude::*;

use crate::ast::{Expr, ExprModel};
use crate::error::ParseError;
use crate::scan::{
    advance_stream, lemma_advance_stream, tok_at, Scanner, Token, TokenKind, TokenStream,
    TokenView,
};

verus! {

/// Binding power of `=`, the lowest infix operator.
pub const EQUAL_LESS_GREATER: u8 = 1;

/// Binding power of infix `+` and `-`.
pub const PLUS_MINUS: u8 = 2;

/// Binding power of `*`, `/`, `%` and of implicit multiplication, the
/// product of two operands written side by side.
pub const MULTIPLY_DIVIDE_MOD: u8 = 3;

/// Binding power of `^`. Its right operand is parsed one level above it, so
/// `a^b^c` groups as `(a^b)^c`.
pub const POWER: u8 = 4;

/// Binding power of prefix `-`.
pub const MINUS_PREFIX: u8 = 5;

/// Binding power of postfix `!`, the highest.
pub const FACTORIAL: u8 = 6;

/// The binding power of a prefix operator: only `-` is one.
pub open spec fn prefix_power(k: TokenKind) -> Option<u8> {
    if k is Minus {
        Some(MINUS_PREFIX)
    } else {
        None
    }
}

/// The binding power of a postfix operator: only `!` is one.
pub open spec fn postfix_power(k: TokenKind) -> Option<u8> {
    if k is Factorial {
        Some(FACTORIAL)
    } else {
        None
    }
}

/// The binding power of an infix operator. `<`, `>` and the other
/// comparisons are scanned but bind as no operator.
pub open spec fn infix_power(k: TokenKind) -> Option<u8> {
    match k {
        TokenKind::Equal => Some(EQUAL_LESS_GREATER),
        TokenKind::Plus | TokenKind::Minus => Some(PLUS_MINUS),
        TokenKind::Multiply | TokenKind::Divide | TokenKind::Modulo => Some(MULTIPLY_DIVIDE_MOD),
        TokenKind::Power => Some(POWER),
        _ => None,
    }
}

/// The binding power at which the right operand of infix `k` (of power
/// `lbp`) is parsed: one above its own for `^`, the multiplicative level
/// for every other operator.
pub open spec fn rhs_power(k: TokenKind, lbp: u8) -> u8 {
    if k is Power {
        (lbp + 1) as u8
    } else {
        MULTIPLY_DIVIDE_MOD
    }
}

/// Tokens that start an operand, so that one right after another operand
/// multiplies it.
pub open spec fn starts_operand(k: TokenKind) -> bool {
    k is Variable || k is Integer || k is Float || k is LeftParen
}

/// The operator token of an implicit multiplication.
pub open spec fn implicit_times() -> TokenView {
    (TokenKind::Multiply, seq!['*' as u8])
}

/// The leaf that a variable or numeral token makes.
pub open spec fn leaf_of(t: TokenView) -> ExprModel {
    if t.0 is Variable {
        ExprModel::Variable(t)
    } else {
        ExprModel::Literal(t)
    }
}

/// What parsing at binding power `min_bp` from token `k` of `s` yields: the
/// tree and the index of the first token not taken.
pub open spec fn expr_at(s: TokenStream, k: int, min_bp: u8) -> Result<
    (ExprModel, int),
    ParseError,
>
    decreases s.toks.len() - k, 1int,
{
    if !(0 <= k < s.toks.len()) {
        match tok_at(s, k) {
            Err(e) => Err(e),
            Ok(_) => Err(ParseError::UnsupportedConstruct),
        }
    } else {
        let t = s.toks[k];
        if t.0 is Variable || t.0 is Integer || t.0 is Float {
            loop_at(s, leaf_of(t), k + 1, min_bp)
        } else if t.0 is LeftParen {
            match expr_at(s, k + 1, 0) {
                Err(e) => Err(e),
                Ok((inner, k2)) => match tok_at(s, k2) {
                    Err(e) => Err(e),
                    Ok(c) => if !(c.0 is RightParen) {
                        Err(ParseError::UnexpectedToken { expected: TokenKind::RightParen, found: c.0 })
                    } else if k < k2 < s.toks.len() {
                        loop_at(s, inner, k2 + 1, min_bp)
                    } else {
                        Err(ParseError::UnsupportedConstruct)
                    },
                },
            }
        } else if t.0 is Minus {
            match expr_at(s, k + 1, MINUS_PREFIX) {
                Err(e) => Err(e),
                Ok((r, k2)) => if k < k2 <= s.toks.len() {
                    loop_at(s, ExprModel::Unary(t, Box::new(r)), k2, min_bp)
                } else {
                    Err(ParseError::UnsupportedConstruct)
                },
            }
        } else {
            Err(ParseError::UnsupportedConstruct)
        }
    }
}

/// The operator loop: with `lhs` parsed so far, apply the postfix and infix
/// operators from token `k` on whose binding power reaches `min_bp`. A token
/// that starts an operand stands for an implicit `*` before it.
pub open spec fn loop_at(s: TokenStream, lhs: ExprModel, k: int, min_bp: u8) -> Result<
    (ExprModel, int),
    ParseError,
>
    decreases s.toks.len() - k, 2int,
{
    match tok_at(s, k) {
        Err(e) => Err(e),
        Ok(t) => if t.0 is End || !(0 <= k < s.toks.len()) {
            Ok((lhs, k))
        } else {
            match postfix_power(t.0) {
                Some(bp) => if bp < min_bp {
                    Ok((lhs, k))
                } else {
                    loop_at(s, ExprModel::Unary(t, Box::new(lhs)), k + 1, min_bp)
                },
                None => match infix_power(t.0) {
                    Some(lbp) => if lbp < min_bp {
                        Ok((lhs, k))
                    } else {
                        match expr_at(s, k + 1, rhs_power(t.0, lbp)) {
                            Err(e) => Err(e),
                            Ok((r, k2)) => if k < k2 <= s.toks.len() {
                                loop_at(
                                    s,
                                    ExprModel::Binary(Box::new(lhs), t, Box::new(r)),
                                    k2,
                                    min_bp,
                                )
                            } else {
                                Err(ParseError::UnsupportedConstruct)
                            },
                        }
                    },
                    None => if !starts_operand(t.0) || MULTIPLY_DIVIDE_MOD < min_bp {
                        Ok((lhs, k))
                    } else {
                        match expr_at(s, k, MULTIPLY_DIVIDE_MOD) {
                            Err(e) => Err(e),
                            Ok((r, k2)) => if k < k2 <= s.toks.len() {
                                loop_at(
                                    s,
                                    ExprModel::Binary(Box::new(lhs), implicit_times(), Box::new(r)),
                                    k2,
                                    min_bp,
                                )
                            } else {
                                Err(ParseError::UnsupportedConstruct)
                            },
                        }
                    },
                },
            }
        },
    }
}

/// What parsing a whole stream yields.
pub open spec fn parse_spec(s: TokenStream) -> Result<(ExprModel, int), ParseError> {
    expr_at(s, 0, 0)
}

/// Parsing takes at least the lead token.
pub proof fn lemma_expr_at_advances(s: TokenStream, k: int, min_bp: u8)
    requires
        0 <= k,
    ensures
        expr_at(s, k, min_bp) matches Ok((_, k2)) ==> k < k2 <= s.toks.len(),
    decreases s.toks.len() - k, 1int,
{
    if 0 <= k < s.toks.len() {
        let t = s.toks[k];
        if t.0 is Variable || t.0 is Integer || t.0 is Float {
            lemma_loop_at_advances(s, leaf_of(t), k + 1, min_bp);
        } else if t.0 is LeftParen {
            lemma_expr_at_advances(s, k + 1, 0);
            if let Ok((inner, k2)) = expr_at(s, k + 1, 0) {
                if k < k2 < s.toks.len() {
                    lemma_loop_at_advances(s, inner, k2 + 1, min_bp);
                }
            }
        } else if t.0 is Minus {
            lemma_expr_at_advances(s, k + 1, MINUS_PREFIX);
            if let Ok((r, k2)) = expr_at(s, k + 1, MINUS_PREFIX) {
                if k < k2 <= s.toks.len() {
                    lemma_loop_at_advances(s, ExprModel::Unary(t, Box::new(r)), k2, min_bp);
                }
            }
        }
    }
}

pub(crate) proof fn lemma_loop_at_advances(s: TokenStream, lhs: ExprModel, k: int, min_bp: u8)
    requires
        0 <= k <= s.toks.len(),
    ensures
        loop_at(s, lhs, k, min_bp) matches Ok((_, k2)) ==> k <= k2 <= s.toks.len(),
    decreases s.toks.len() - k, 2int,
{
    if let Ok(t) = tok_at(s, k) {
        if !(t.0 is End || !(0 <= k < s.toks.len())) {
            match postfix_power(t.0) {
                Some(bp) => if bp >= min_bp {
                    lemma_loop_at_advances(s, ExprModel::Unary(t, Box::new(lhs)), k + 1, min_bp);
                },
                None => if let Some(lbp) = infix_power(t.0) {
                    if lbp >= min_bp {
                        lemma_expr_at_advances(s, k + 1, rhs_power(t.0, lbp));
                        if let Ok((r, k2)) = expr_at(s, k + 1, rhs_power(t.0, lbp)) {
                            if k < k2 <= s.toks.len() {
                                lemma_loop_at_advances(
                                    s,
                                    ExprModel::Binary(Box::new(lhs), t, Box::new(r)),
                                    k2,
                                    min_bp,
                                );
                            }
                        }
                    }
                } else if starts_operand(t.0) && MULTIPLY_DIVIDE_MOD >= min_bp {
                    lemma_expr_at_advances(s, k, MULTIPLY_DIVIDE_MOD);
                    if let Ok((r, k2)) = expr_at(s, k, MULTIPLY_DIVIDE_MOD) {
                        if k < k2 <= s.toks.len() {
                            lemma_loop_at_advances(
                                s,
                                ExprModel::Binary(Box::new(lhs), implicit_times(), Box::new(r)),
                                k2,
                                min_bp,
                            );
                        }
                    }
                },
            }
        }
    }
}

/// The scanner's stream `st` is the stream `s0` from its token `k` on.
pub open spec fn stream_at(st: TokenStream, s0: TokenStream, k: int) -> bool {
    forall|i: int| i >= 0 ==> #[trigger] tok_at(st, i) == tok_at(s0, k + i)
}

proof fn lemma_stream_at_advance(st: TokenStream, s0: TokenStream, k: int)
    requires
        stream_at(st, s0, k),
        tok_at(st, 0) is Ok,
    ensures
        stream_at(advance_stream(st), s0, k + 1),
{
    lemma_advance_stream(st);
    assert forall|i: int| i >= 0 implies #[trigger] tok_at(advance_stream(st), i) == tok_at(
        s0,
        k + 1 + i,
    ) by {
        assert(tok_at(st, i + 1) == tok_at(s0, k + (i + 1)));
    }
}

fn prefix_bp(kind: TokenKind) -> (r: Result<u8, ParseError>)
    ensures
        match prefix_power(kind) {
            Some(b) => r == Ok::<u8, ParseError>(b),
            None => r == Err::<u8, ParseError>(ParseError::UnsupportedConstruct),
        },
{
    match kind {
        TokenKind::Minus => Ok(MINUS_PREFIX),
        _ => Err(ParseError::UnsupportedConstruct),
    }
}

fn postfix_bp(kind: TokenKind) -> (r: Option<u8>)
    ensures
        r == postfix_power(kind),
{
    match kind {
        TokenKind::Factorial => Some(FACTORIAL),
        _ => None,
    }
}

fn infix_bp(kind: TokenKind) -> (r: Option<u8>)
    ensures
        r == infix_power(kind),
{
    match kind {
        TokenKind::Equal => Some(EQUAL_LESS_GREATER),
        TokenKind::Plus | TokenKind::Minus => Some(PLUS_MINUS),
        TokenKind::Multiply | TokenKind::Divide | TokenKind::Modulo => Some(MULTIPLY_DIVIDE_MOD),
        TokenKind::Power => Some(POWER),
        _ => None,
    }
}

/// Whether a token of this kind, right after an operand, multiplies it.
fn implicit_product(kind: TokenKind) -> (r: bool)
    ensures
        r == starts_operand(kind),
{
    match kind {
        TokenKind::Variable | TokenKind::Integer(_) | TokenKind::Float(_) | TokenKind::LeftParen => true,
        _ => false,
    }
}

/// Takes the next token, which must be of kind `kind`.
fn consume(scanner: &mut Scanner, kind: TokenKind) -> (r: Result<(), ParseError>)
    requires
        old(scanner).wf(),
    ensures
        final(scanner).wf(),
        match tok_at(old(scanner).stream(), 0) {
            Ok(t) => final(scanner).stream() == advance_stream(old(scanner).stream()) && if t.0
                == kind {
                r is Ok
            } else {
                r == Err::<(), ParseError>(ParseError::UnexpectedToken { expected: kind, found: t.0 })
            },
            Err(e) => r == Err::<(), ParseError>(e),
        },
{
    let t = scanner.next_token()?;
    if t.kind == kind {
        Ok(())
    } else {
        Err(ParseError::UnexpectedToken { expected: kind, found: t.kind })
    }
}

/// Parses at binding power `min_bp`; the scanner's stream is `s0` from token `k` on.
fn parse_expr_from(scanner: &mut Scanner, min_bp: u8, Ghost(s0): Ghost<TokenStream>, Ghost(k): Ghost<int>) -> (r:
    Result<Expr, ParseError>)
    requires
        old(scanner).wf(),
        0 <= k,
        stream_at(old(scanner).stream(), s0, k),
    ensures
        final(scanner).wf(),
        match expr_at(s0, k, min_bp) {
            Ok((e, k2)) => r matches Ok(x) && x@ == e && stream_at(final(scanner).stream(), s0, k2),
            Err(err) => r == Err::<Expr, ParseError>(err),
        },
    decreases s0.toks.len() - k, 1int,
{
    let ghost st = scanner.stream();
    assert(tok_at(st, 0) == tok_at(s0, k + 0));
    let lhs_token = scanner.next_token()?;
    proof {
        lemma_stream_at_advance(st, s0, k);
        if !(0 <= k < s0.toks.len()) {
            assert(lhs_token.kind is End);
        }
    }
    match lhs_token.kind {
        TokenKind::Variable => parse_loop(
            scanner,
            Expr::Variable { name: lhs_token },
            min_bp,
            Ghost(s0),
            Ghost(k + 1),
        ),
        TokenKind::Integer(_) | TokenKind::Float(_) => parse_loop(
            scanner,
            Expr::Literal { literal: lhs_token },
            min_bp,
            Ghost(s0),
            Ghost(k + 1),
        ),
        TokenKind::LeftParen => {
            let inner = parse_expr_from(scanner, 0, Ghost(s0), Ghost(k + 1))?;
            let ghost k2 = expr_at(s0, k + 1, 0)->Ok_0.1;
            let ghost st2 = scanner.stream();
            proof {
                lemma_expr_at_advances(s0, k + 1, 0);
                assert(tok_at(st2, 0) == tok_at(s0, k2 + 0));
            }
            consume(scanner, TokenKind::RightParen)?;
            proof {
                lemma_stream_at_advance(st2, s0, k2);
            }
            parse_loop(scanner, inner, min_bp, Ghost(s0), Ghost(k2 + 1))
        },
        TokenKind::Minus => {
            let bp = prefix_bp(lhs_token.kind)?;
            let rhs = parse_expr_from(scanner, bp, Ghost(s0), Ghost(k + 1))?;
            let ghost k2 = expr_at(s0, k + 1, MINUS_PREFIX)->Ok_0.1;
            proof {
                lemma_expr_at_advances(s0, k + 1, MINUS_PREFIX);
            }
            parse_loop(
                scanner,
                Expr::Unary { op: lhs_token, rhs: Box::new(rhs) },
                min_bp,
                Ghost(s0),
                Ghost(k2),
            )
        },
        _ => Err(ParseError::UnsupportedConstruct),
    }
}

/// The operator loop: applies postfix and infix operators to `lhs`, and
/// multiplies it by operands that follow it at once, while their binding
/// power reaches `min_bp`.
fn parse_loop(
    scanner: &mut Scanner,
    lhs: Expr,
    min_bp: u8,
    Ghost(s0): Ghost<TokenStream>,
    Ghost(k): Ghost<int>,
) -> (r: Result<Expr, ParseError>)
    requires
        old(scanner).wf(),
        0 <= k <= s0.toks.len(),
        stream_at(old(scanner).stream(), s0, k),
    ensures
        final(scanner).wf(),
        match loop_at(s0, lhs@, k, min_bp) {
            Ok((e, k2)) => r matches Ok(x) && x@ == e && stream_at(final(scanner).stream(), s0, k2),
            Err(err) => r == Err::<Expr, ParseError>(err),
        },
    decreases s0.toks.len() - k, 2int,
{
    let ghost target = loop_at(s0, lhs@, k, min_bp);
    let mut cur = lhs;
    let ghost mut kk = k;
    loop
        invariant
            scanner.wf(),
            k <= kk <= s0.toks.len(),
            stream_at(scanner.stream(), s0, kk),
            loop_at(s0, cur@, kk, min_bp) == target,
            target == loop_at(s0, lhs@, k, min_bp),
        decreases s0.toks.len() - kk,
    {
        let ghost st = scanner.stream();
        assert(tok_at(st, 0) == tok_at(s0, kk + 0));
        let op_kind = match scanner.peek_token(0) {
            Ok(t) => t.kind,
            Err(e) => {
                assert(loop_at(s0, cur@, kk, min_bp) == Err::<(ExprModel, int), ParseError>(e));
                return Err(e);
            },
        };
        if op_kind == TokenKind::End {
            assert(loop_at(s0, cur@, kk, min_bp) == Ok::<(ExprModel, int), ParseError>((cur@, kk)));
            return Ok(cur);
        }
        proof {
            assert(0 <= kk < s0.toks.len());
        }
        if let Some(lbp) = postfix_bp(op_kind) {
            if lbp < min_bp {
                return Ok(cur);
            }
            let op = scanner.next_token()?;
            proof {
                lemma_stream_at_advance(st, s0, kk);
                kk = kk + 1;
            }
            cur = Expr::Unary { op, rhs: Box::new(cur) };
            continue;
        }
        if let Some(lbp) = infix_bp(op_kind) {
            if lbp < min_bp {
                return Ok(cur);
            }
            let op = scanner.next_token()?;
            proof {
                lemma_stream_at_advance(st, s0, kk);
            }
            let rbp = if op.kind == TokenKind::Power {
                lbp + 1
            } else {
                MULTIPLY_DIVIDE_MOD
            };
            assert(rbp == rhs_power(op_kind, lbp));
            let rhs = parse_expr_from(scanner, rbp, Ghost(s0), Ghost(kk + 1))?;
            proof {
                lemma_expr_at_advances(s0, kk + 1, rbp);
                kk = expr_at(s0, kk + 1, rbp)->Ok_0.1;
            }
            cur = Expr::Binary { lhs: Box::new(cur), op, rhs: Box::new(rhs) };
            continue;
        }
        if !implicit_product(op_kind) || MULTIPLY_DIVIDE_MOD < min_bp {
            return Ok(cur);
        }
        let rhs = parse_expr_from(scanner, MULTIPLY_DIVIDE_MOD, Ghost(s0), Ghost(kk))?;
        proof {
            lemma_expr_at_advances(s0, kk, MULTIPLY_DIVIDE_MOD);
            kk = expr_at(s0, kk, MULTIPLY_DIVIDE_MOD)->Ok_0.1;
        }
        let times = Token { kind: TokenKind::Multiply, lexeme: vec!['*' as u8] };
        assert(times@ == implicit_times());
        cur = Expr::Binary { lhs: Box::new(cur), op: times, rhs: Box::new(rhs) };
    }
}

/// Parses one whole expression from the scanner.
pub fn parse(scanner: &mut Scanner) -> (r: Result<Expr, ParseError>)
    requires
        old(scanner).wf(),
    ensures
        final(scanner).wf(),
        match parse_spec(old(scanner).stream()) {
            Ok((e, k)) => r matches Ok(x) && x@ == e && stream_at(
                final(scanner).stream(),
                old(scanner).stream(),
                k,
            ),
            Err(err) => r == Err::<Expr, ParseError>(err),
        },
{
    parse_expr(scanner, 0)
}

/// Parses an expression whose operators bind at least as tightly as `min_bp`.
pub fn parse_expr(scanner: &mut Scanner, min_bp: u8) -> (r: Result<Expr, ParseError>)
    requires
        old(scanner).wf(),
    ensures
        final(scanner).wf(),
        match expr_at(old(scanner).stream(), 0, min_bp) {
            Ok((e, k)) => r matches Ok(x) && x@ == e && stream_at(
                final(scanner).stream(),
                old(scanner).stream(),
                k,
            ),
            Err(err) => r == Err::<Expr, ParseError>(err),
        },
{
    let ghost s0 = scanner.stream();
    parse_expr_from(scanner, min_bp, Ghost(s0), Ghost(0))
}

} // verus!
