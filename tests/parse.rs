use expr_parser::ast::Expr;
use expr_parser::error::ParseError;
use expr_parser::parse::{parse, parse_expr};
use expr_parser::scan::{Scanner, Token, TokenKind};

fn var(name: &str) -> Expr {
    Expr::Variable { name: Token::new(TokenKind::Variable, name) }
}

fn num(v: u64, text: &str) -> Expr {
    Expr::Literal { literal: Token::new(TokenKind::Integer(v), text) }
}

fn bin(lhs: Expr, kind: TokenKind, op: &str, rhs: Expr) -> Expr {
    Expr::Binary { lhs: Box::new(lhs), op: Token::new(kind, op), rhs: Box::new(rhs) }
}

fn parse_str(src: &str) -> Result<Expr, ParseError> {
    parse(&mut Scanner::new(src))
}

#[test]
fn deep() {
    assert!(!Expr::Binary {
        rhs: Box::new(Expr::Literal { literal: Token::new(TokenKind::Variable, "something") }),
        op: Token::new(TokenKind::Multiply, "*"),
        lhs: Box::new(Expr::Literal { literal: Token::new(TokenKind::Integer(3), "3") }),
    }
    .deep());

    assert!(Expr::Binary {
        rhs: Box::new(Expr::Binary {
            rhs: Box::new(Expr::Literal { literal: Token::new(TokenKind::Variable, "something") }),
            op: Token::new(TokenKind::Multiply, "*"),
            lhs: Box::new(Expr::Literal { literal: Token::new(TokenKind::Integer(3), "3") }),
        }),
        op: Token::new(TokenKind::Multiply, "*"),
        lhs: Box::new(Expr::Literal { literal: Token::new(TokenKind::Integer(3), "3") }),
    }
    .deep());
}

#[test]
fn correct_exponent() {
    let expr1 = "a^2b";
    let expr2 = "a^2*b";

    let expr1 = parse(&mut Scanner::new(expr1)).unwrap();
    let expr2 = parse(&mut Scanner::new(expr2)).unwrap();

    assert_eq!(expr1, expr2);
}

#[test]
fn correct_exponent2() {
    let expr1 = "a^b(c^d)";
    let expr2 = "a^b*(c^d)";

    let expr1 = parse(&mut Scanner::new(expr1)).unwrap();
    let expr2 = parse(&mut Scanner::new(expr2)).unwrap();

    assert_eq!(expr1, expr2);
}

#[test]
fn implicit_product_binds_as_multiplication() {
    assert_eq!(
        parse_str("a^2b").unwrap(),
        bin(bin(var("a"), TokenKind::Power, "^", num(2, "2")), TokenKind::Multiply, "*", var("b"))
    );
    let cd = bin(var("c"), TokenKind::Power, "^", var("d"));
    assert_eq!(
        parse_str("a^b(c^d)").unwrap(),
        bin(bin(var("a"), TokenKind::Power, "^", var("b")), TokenKind::Multiply, "*", cd)
    );
    assert_eq!(parse_str("-3x").unwrap(), parse_str("-3*x").unwrap());
    assert_eq!(parse_str("2x!").unwrap(), parse_str("2*x!").unwrap());
}

#[test]
fn parse_test() {
    let expr = parse_str("(x^2+1)(x^2-2)").unwrap();
    assert_eq!(
        expr,
        Expr::Binary {
            lhs: Box::new(Expr::Binary {
                lhs: Box::new(Expr::Binary {
                    lhs: Box::new(Expr::Variable { name: Token::new(TokenKind::Variable, "x") }),
                    op: Token::new(TokenKind::Power, "^"),
                    rhs: Box::new(Expr::Literal { literal: Token::new(TokenKind::Integer(2), "2") }),
                }),
                op: Token::new(TokenKind::Plus, "+"),
                rhs: Box::new(Expr::Literal { literal: Token::new(TokenKind::Integer(1), "1") }),
            }),
            op: Token::new(TokenKind::Multiply, "*"),
            rhs: Box::new(Expr::Binary {
                lhs: Box::new(Expr::Binary {
                    lhs: Box::new(Expr::Variable { name: Token::new(TokenKind::Variable, "x") }),
                    op: Token::new(TokenKind::Power, "^"),
                    rhs: Box::new(Expr::Literal { literal: Token::new(TokenKind::Integer(2), "2") }),
                }),
                op: Token::new(TokenKind::Minus, "-"),
                rhs: Box::new(Expr::Literal { literal: Token::new(TokenKind::Integer(2), "2") }),
            }),
        }
    );
}

#[test]
fn parse2() {
    let exprs = [
        "f(x)=3x^2-2x+1",
        "(x^2+1)(x^2-2)",
        "-3(x+2)",
        "-3x-6",
        "3(2)(3)",
        "(poopy(3l)^3(4^4)^(4^4))3",
    ];
    for expr in exprs.iter() {
        if let Err(_) = parse(&mut Scanner::new(expr)) {
            panic!("\"{}\" failed", expr);
        }
    }
}

#[test]
fn implicit_product_matches_explicit() {
    assert_eq!(parse_str("2b").unwrap(), parse_str("2*b").unwrap());
    assert_eq!(parse_str("(a)(b)").unwrap(), parse_str("(a)*(b)").unwrap());
    assert_eq!(parse_str("x(y+1)").unwrap(), parse_str("x*(y+1)").unwrap());
    assert_eq!(
        parse_str("3x^2").unwrap(),
        bin(num(3, "3"), TokenKind::Multiply, "*", bin(var("x"), TokenKind::Power, "^", num(2, "2")))
    );
}

#[test]
fn function_notation_is_a_product() {
    let e = parse_str("f(x)=1").unwrap();
    assert_eq!(
        e,
        bin(bin(var("f"), TokenKind::Multiply, "*", var("x")), TokenKind::Equal, "=", num(1, "1"))
    );
}

#[test]
fn leading_operator_is_rejected() {
    for src in ["*x", "+1", "/2", "^3", ")", "=a", "!x", ",", "<y", ""] {
        assert_eq!(parse_str(src), Err(ParseError::UnsupportedConstruct), "{}", src);
    }
}

#[test]
fn unsupported_leads() {
    assert_eq!(parse_str("sin(x)"), Err(ParseError::UnsupportedConstruct));
    assert_eq!(parse_str("theta"), Err(ParseError::UnsupportedConstruct));
    assert_eq!(parse_str("1+*2"), Err(ParseError::UnsupportedConstruct));
}

#[test]
fn missing_right_paren() {
    assert_eq!(
        parse_str("(x+1"),
        Err(ParseError::UnexpectedToken { expected: TokenKind::RightParen, found: TokenKind::End })
    );
    assert_eq!(
        parse_str("(x,1)"),
        Err(ParseError::UnexpectedToken {
            expected: TokenKind::RightParen,
            found: TokenKind::Comma
        })
    );
}

#[test]
fn scan_failure_reaches_the_caller() {
    assert_eq!(parse_str("1+99999999999999999999"), Err(ParseError::InvalidNumeral));
}

#[test]
fn precedence_and_associativity() {
    let two = || num(2, "2");
    // The right operand of `^` is parsed one level above `^` itself, so a
    // second `^` does not reach into it.
    assert_eq!(
        parse_str("2^3^4").unwrap(),
        bin(bin(two(), TokenKind::Power, "^", num(3, "3")), TokenKind::Power, "^", num(4, "4"))
    );
    assert_eq!(
        parse_str("1-2-3").unwrap(),
        bin(bin(num(1, "1"), TokenKind::Minus, "-", two()), TokenKind::Minus, "-", num(3, "3"))
    );
    assert_eq!(
        parse_str("1+2*3").unwrap(),
        bin(num(1, "1"), TokenKind::Plus, "+", bin(two(), TokenKind::Multiply, "*", num(3, "3")))
    );
    assert_eq!(
        parse_str("a=b=c").unwrap(),
        bin(bin(var("a"), TokenKind::Equal, "=", var("b")), TokenKind::Equal, "=", var("c"))
    );
    assert_eq!(
        parse_str("-3^2").unwrap(),
        bin(
            Expr::Unary { op: Token::new(TokenKind::Minus, "-"), rhs: Box::new(num(3, "3")) },
            TokenKind::Power,
            "^",
            two()
        )
    );
}

#[test]
fn factorials_stack() {
    let bang = || Token::new(TokenKind::Factorial, "!");
    assert_eq!(
        parse_str("3!!").unwrap(),
        Expr::Unary {
            op: bang(),
            rhs: Box::new(Expr::Unary { op: bang(), rhs: Box::new(num(3, "3")) })
        }
    );
}

#[test]
fn parse_leaves_what_it_does_not_take() {
    let mut sc = Scanner::new("2 theta");
    assert_eq!(parse(&mut sc).unwrap(), num(2, "2"));
    assert_eq!(sc.next_token().unwrap().kind, TokenKind::SpecialVariable);

    let mut sc = Scanner::new("a+b*c");
    assert_eq!(parse_expr(&mut sc, 3).unwrap(), var("a"));
    assert_eq!(sc.next_token().unwrap().kind, TokenKind::Plus);
}
