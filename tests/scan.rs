use expr_parser::error::ParseError;
use expr_parser::scan::{is_non_identifier, Decimal, Scanner, Token, TokenKind};

fn kinds(src: &str) -> Vec<TokenKind> {
    Scanner::new(src).scan_all().unwrap().iter().map(|t| t.kind).collect()
}

fn float(mantissa: u64, scale: usize) -> TokenKind {
    TokenKind::Float(Decimal { mantissa, dropped: 0, scale })
}

#[test]
fn scan() {
    let ts = Scanner::new("f(x)=3x^2-2x+1").scan_all().unwrap();
    let tks: Vec<TokenKind> = ts.iter().map(|t| t.kind).collect();
    assert_eq!(
        vec![
            TokenKind::Variable,
            TokenKind::LeftParen,
            TokenKind::Variable,
            TokenKind::RightParen,
            TokenKind::Equal,
            TokenKind::Integer(3),
            TokenKind::Variable,
            TokenKind::Power,
            TokenKind::Integer(2),
            TokenKind::Minus,
            TokenKind::Integer(2),
            TokenKind::Variable,
            TokenKind::Plus,
            TokenKind::Integer(1),
            TokenKind::End,
        ],
        tks
    );
}

#[test]
fn scan2() {
    let ts = Scanner::new("f(x)=3.3x^2.2-2.2x+1.1").scan_all().unwrap();
    let tks: Vec<TokenKind> = ts.iter().map(|t| t.kind).collect();
    assert_eq!(
        vec![
            TokenKind::Variable,
            TokenKind::LeftParen,
            TokenKind::Variable,
            TokenKind::RightParen,
            TokenKind::Equal,
            float(33, 1),
            TokenKind::Variable,
            TokenKind::Power,
            float(22, 1),
            TokenKind::Minus,
            float(22, 1),
            TokenKind::Variable,
            TokenKind::Plus,
            float(11, 1),
            TokenKind::End,
        ],
        tks
    );
}

#[test]
fn names() {
    Scanner::new("aa+bb").scan_all().unwrap();
    Scanner::new(" aa   + bb").scan_all().unwrap();
    Scanner::new(" aa   +   bb").scan_all().unwrap();
    Scanner::new(" aa    + bb").scan_all().unwrap();
    Scanner::new("   aa +   bb ").scan_all().unwrap();
    Scanner::new("   aa   +   bb ").scan_all().unwrap();
    Scanner::new("   aa   +    bb ").scan_all().unwrap();
    Scanner::new(" aa    +  bb").scan_all().unwrap();
    Scanner::new(" aa    +   bb").scan_all().unwrap();
    Scanner::new("  aa    +  bb").scan_all().unwrap();
    Scanner::new("  aa    +   bb").scan_all().unwrap();
    Scanner::new("  aa    +    bb").scan_all().unwrap();
    Scanner::new("   aa+bb").scan_all().unwrap();
    Scanner::new("   aa    +  bb").scan_all().unwrap();
    Scanner::new("   aa    +   bb").scan_all().unwrap();
    Scanner::new("   aa+bb ").scan_all().unwrap();
    Scanner::new("   aa+ bb ").scan_all().unwrap();
    Scanner::new("aa +   bb").scan_all().unwrap();
    Scanner::new("aa +    bb").scan_all().unwrap();
    Scanner::new("aa  +  bb").scan_all().unwrap();
    Scanner::new(" aa  +  bb").scan_all().unwrap();
    Scanner::new(" aa  +   bb").scan_all().unwrap();
    Scanner::new("   aa    + bb ").scan_all().unwrap();
    Scanner::new("   aa    +  bb ").scan_all().unwrap();
    Scanner::new("   aa    +   bb ").scan_all().unwrap();
    Scanner::new("   aa+  bb ").scan_all().unwrap();
    Scanner::new("   aa+   bb ").scan_all().unwrap();
    Scanner::new("aa+ bb").scan_all().unwrap();
    Scanner::new("aa+   bb").scan_all().unwrap();
    Scanner::new("aa+    bb").scan_all().unwrap();
    Scanner::new("aa + bb").scan_all().unwrap();
    Scanner::new("aa +  bb").scan_all().unwrap();
    Scanner::new(" aa  +    bb").scan_all().unwrap();
    Scanner::new("   aa+    bb ").scan_all().unwrap();
    Scanner::new("   aa + bb ").scan_all().unwrap();
    Scanner::new("   aa +  bb ").scan_all().unwrap();
    Scanner::new("   aa    +    bb ").scan_all().unwrap();
}

#[test]
fn spaces() {
    Scanner::new("1+1").scan_all().unwrap();
    Scanner::new(" 1   + 1").scan_all().unwrap();
    Scanner::new(" 1   +   1").scan_all().unwrap();
    Scanner::new(" 1    + 1").scan_all().unwrap();
    Scanner::new("   1 +   1 ").scan_all().unwrap();
    Scanner::new("   1   +   1 ").scan_all().unwrap();
    Scanner::new("   1   +    1 ").scan_all().unwrap();
    Scanner::new(" 1    +  1").scan_all().unwrap();
    Scanner::new(" 1    +   1").scan_all().unwrap();
    Scanner::new("  1    +  1").scan_all().unwrap();
    Scanner::new("  1    +   1").scan_all().unwrap();
    Scanner::new("  1    +    1").scan_all().unwrap();
    Scanner::new("   1+1").scan_all().unwrap();
    Scanner::new("   1    +  1").scan_all().unwrap();
    Scanner::new("   1    +   1").scan_all().unwrap();
    Scanner::new("   1+1 ").scan_all().unwrap();
    Scanner::new("   1+ 1 ").scan_all().unwrap();
    Scanner::new("1 +   1").scan_all().unwrap();
    Scanner::new("1 +    1").scan_all().unwrap();
    Scanner::new("1  +  1").scan_all().unwrap();
    Scanner::new(" 1  +  1").scan_all().unwrap();
    Scanner::new(" 1  +   1").scan_all().unwrap();
    Scanner::new("   1    + 1 ").scan_all().unwrap();
    Scanner::new("   1    +  1 ").scan_all().unwrap();
    Scanner::new("   1    +   1 ").scan_all().unwrap();
    Scanner::new("   1+  1 ").scan_all().unwrap();
    Scanner::new("   1+   1 ").scan_all().unwrap();
    Scanner::new("1+ 1").scan_all().unwrap();
    Scanner::new("1+   1").scan_all().unwrap();
    Scanner::new("1+    1").scan_all().unwrap();
    Scanner::new("1 + 1").scan_all().unwrap();
    Scanner::new("1 +  1").scan_all().unwrap();
    Scanner::new(" 1  +    1").scan_all().unwrap();
    Scanner::new("   1+    1 ").scan_all().unwrap();
    Scanner::new("   1 + 1 ").scan_all().unwrap();
    Scanner::new("   1 +  1 ").scan_all().unwrap();
    Scanner::new("   1    +    1 ").scan_all().unwrap();
}

#[test]
fn numerals_keep_their_value_and_spelling() {
    let ts = Scanner::new("3.3x^2.2-2.2x+1.1").scan_all().unwrap();
    let tks: Vec<TokenKind> = ts.iter().map(|t| t.kind).collect();
    assert_eq!(
        vec![
            float(33, 1),
            TokenKind::Variable,
            TokenKind::Power,
            float(22, 1),
            TokenKind::Minus,
            float(22, 1),
            TokenKind::Variable,
            TokenKind::Plus,
            float(11, 1),
            TokenKind::End,
        ],
        tks
    );
    assert_eq!(ts[0].lexeme, b"3.3".to_vec());
    assert_eq!(ts[3].lexeme, b"2.2".to_vec());
    let value = |d: Decimal| {
        d.mantissa as f64 * 10f64.powi(d.dropped as i32) / 10f64.powi(d.scale as i32)
    };
    if let TokenKind::Float(d) = ts[0].kind {
        assert_eq!(value(d), 3.3);
    } else {
        panic!("not a float");
    }
}

#[test]
fn rescanning_gives_the_same_tokens() {
    let a = Scanner::new("aa+bb").scan_all().unwrap();
    let b = Scanner::new("aa+bb").scan_all().unwrap();
    assert_eq!(a, b);
    let c = Scanner::new("  aa   +   bb  ").scan_all().unwrap();
    assert_eq!(a, c);
    assert_eq!(
        kinds("  aa   +   bb  "),
        vec![TokenKind::Variable, TokenKind::Plus, TokenKind::Variable, TokenKind::End]
    );
    assert_eq!(a[0], Token::new(TokenKind::Variable, "aa"));
    assert_eq!(a[2], Token::new(TokenKind::Variable, "bb"));
}

#[test]
fn empty_and_blank_sources_give_only_end() {
    assert_eq!(kinds(""), vec![TokenKind::End]);
    assert_eq!(kinds(" \t\n "), vec![TokenKind::End]);
    let ts = Scanner::new("   ").scan_all().unwrap();
    assert!(ts[0].lexeme.is_empty());
}

#[test]
fn two_byte_operators() {
    assert_eq!(
        kinds("a<=b>=c!=d<e>f!"),
        vec![
            TokenKind::Variable,
            TokenKind::LessEqual,
            TokenKind::Variable,
            TokenKind::GreaterEqual,
            TokenKind::Variable,
            TokenKind::NotEqual,
            TokenKind::Variable,
            TokenKind::Less,
            TokenKind::Variable,
            TokenKind::Greater,
            TokenKind::Variable,
            TokenKind::Factorial,
            TokenKind::End,
        ]
    );
    assert_eq!(
        kinds("(,)*/%"),
        vec![
            TokenKind::LeftParen,
            TokenKind::Comma,
            TokenKind::RightParen,
            TokenKind::Multiply,
            TokenKind::Divide,
            TokenKind::Modulo,
            TokenKind::End,
        ]
    );
}

#[test]
fn keywords() {
    for w in ["sin", "cos", "tan", "csc", "sec", "cot", "sigma", "ln", "log"] {
        assert_eq!(kinds(w), vec![TokenKind::BuiltinFunction, TokenKind::End]);
    }
    for w in ["theta", "dx", "dy", "dtheta"] {
        assert_eq!(kinds(w), vec![TokenKind::SpecialVariable, TokenKind::End]);
    }
    for w in ["si", "sins", "x", "thetas", "d"] {
        assert_eq!(kinds(w), vec![TokenKind::Variable, TokenKind::End]);
    }
}

#[test]
fn numeral_edges() {
    assert_eq!(kinds("7."), vec![float(7, 0), TokenKind::End]);
    assert_eq!(kinds("0.05"), vec![float(5, 2), TokenKind::End]);
    assert_eq!(
        kinds("18446744073709551615"),
        vec![TokenKind::Integer(u64::MAX), TokenKind::End]
    );
    assert_eq!(kinds("3l"), vec![TokenKind::Integer(3), TokenKind::Variable, TokenKind::End]);
    assert_eq!(
        Scanner::new("18446744073709551616").scan_all(),
        Err(ParseError::InvalidNumeral)
    );
    assert_eq!(
        kinds("1.8446744073709551616"),
        vec![
            TokenKind::Float(Decimal { mantissa: 1844674407370955161, dropped: 1, scale: 19 }),
            TokenKind::End
        ]
    );
}

#[test]
fn long_floats_keep_their_leading_digits() {
    let ts = Scanner::new("3.14159265358979323846").scan_all().unwrap();
    assert_eq!(
        ts[0].kind,
        TokenKind::Float(Decimal { mantissa: 3141592653589793238, dropped: 2, scale: 20 })
    );
    assert_eq!(ts[0].lexeme, b"3.14159265358979323846".to_vec());
    assert_eq!(
        kinds("000.000000000000000000001"),
        vec![float(1, 21), TokenKind::End]
    );
    assert_eq!(kinds("0.0"), vec![float(0, 1), TokenKind::End]);
    assert_eq!(
        kinds("12345678901234567890123.5"),
        vec![
            TokenKind::Float(Decimal { mantissa: 1234567890123456789, dropped: 5, scale: 1 }),
            TokenKind::End
        ]
    );
}

#[test]
fn lookahead_and_taking() {
    let mut sc = Scanner::new("a + 12");
    assert_eq!(sc.peek_token(2).unwrap().kind, TokenKind::Integer(12));
    assert_eq!(sc.peek_token(5).unwrap().kind, TokenKind::End);
    assert_eq!(sc.next_token().unwrap(), Token::new(TokenKind::Variable, "a"));
    assert_eq!(sc.peek_token(0).unwrap().kind, TokenKind::Plus);
    assert_eq!(sc.next_token().unwrap().kind, TokenKind::Plus);
    assert_eq!(sc.next_token().unwrap(), Token::new(TokenKind::Integer(12), "12"));
    assert_eq!(sc.next_token().unwrap().kind, TokenKind::End);
    assert_eq!(sc.next_token().unwrap().kind, TokenKind::End);
}

#[test]
fn failure_comes_only_when_reached() {
    let mut sc = Scanner::new("x 99999999999999999999");
    assert_eq!(sc.next_token().unwrap().kind, TokenKind::Variable);
    assert_eq!(sc.peek_token(0), Err(ParseError::InvalidNumeral));
}

#[test]
fn identifier_delimiters() {
    for c in [b' ', b'\t', b'\n', 0u8, b'(', b')', b'-', b'+', b'*', b'/', b'^', b'%', b',', b'!', b'>', b'<', b'='] {
        assert!(is_non_identifier(c));
    }
    for c in [b'a', b'.', b'0', b'_', 0xC3u8] {
        assert!(!is_non_identifier(c));
    }
}

#[test]
fn outer_whitespace_changes_no_token() {
    let plain = Scanner::new("x<=2.5!").scan_all().unwrap();
    let padded = Scanner::new(" \t\r\n x<=2.5! \x0c\n").scan_all().unwrap();
    assert_eq!(plain, padded);
    assert_eq!(plain[2], Token::new(float(25, 1), "2.5"));
    assert_eq!(plain.len(), 5);
}

#[test]
fn end_comes_once_and_last() {
    for src in ["", "a", "(x^2+1)(x^2-2)", "  1 +  1 ", "3!!"] {
        let ts = Scanner::new(src).scan_all().unwrap();
        assert_eq!(ts.last().unwrap().kind, TokenKind::End);
        assert_eq!(ts.iter().filter(|t| t.kind == TokenKind::End).count(), 1);
    }
    let mut sc = Scanner::new("a");
    assert_eq!(sc.peek_token(3).unwrap().kind, TokenKind::End);
    let ts = sc.scan_all().unwrap();
    assert_eq!(
        ts.iter().map(|t| t.kind).collect::<Vec<_>>(),
        vec![TokenKind::Variable, TokenKind::End]
    );
}

#[test]
fn whitespace_next_to_operators_changes_no_token() {
    let plain = Scanner::new("f(x)=3.5x^2-2x+1!").scan_all().unwrap();
    let spaced = Scanner::new("f ( x ) = 3.5x ^ 2 -\t2x +\n1 !").scan_all().unwrap();
    assert_eq!(plain, spaced);
    let cmp = Scanner::new("a<=b").scan_all().unwrap();
    assert_eq!(cmp, Scanner::new("a <= b").scan_all().unwrap());
    assert_ne!(kinds("a<=b"), kinds("a< =b"));
    assert_ne!(kinds("ab"), kinds("a b"));
}
