use orion::Expr;
use orion::ParseError;
use orion::Parser;
use orion::TKind;
use orion::TType;
use orion::Token;

fn tok(ttype: TType, line: u32, col: u32) -> Token {
    Token { ttype, line, col }
}

fn eof(line: u32, col: u32) -> Token {
    tok(TType::Eof, line, col)
}

fn ident(s: &str, line: u32, col: u32) -> Token {
    tok(TType::Ident(s.to_string()), line, col)
}

fn parse_all(tokens: Vec<Token>) -> Result<Vec<Expr>, ParseError> {
    let mut parser = Parser::new(tokens);
    parser.parse()
}

fn var(s: &str) -> Expr {
    Expr::Var(s.to_string())
}

#[test]
fn literal_string_parses_to_string_expr() {
    let r = parse_all(vec![tok(TType::Str("hello".to_string()), 1, 1), eof(1, 8)]);
    assert_eq!(r, Ok(vec![Expr::String("hello".to_string())]));
}

#[test]
fn literal_integer_parses_to_integer_expr() {
    let r = parse_all(vec![tok(TType::Number(5), 1, 1), eof(1, 2)]);
    assert_eq!(r, Ok(vec![Expr::Integer(5)]));
}

#[test]
fn literal_float_parses_to_single_expr() {
    let bits = (3.5f32).to_bits();
    let r = parse_all(vec![tok(TType::Float(bits), 1, 1), eof(1, 4)]);
    assert_eq!(r, Ok(vec![Expr::Single(bits)]));
    assert_eq!(f32::from_bits(bits), 3.5f32);
}

#[test]
fn single_identifier_parses_to_var() {
    let r = parse_all(vec![ident("x", 1, 1), eof(1, 2)]);
    assert_eq!(r, Ok(vec![var("x")]));
}

#[test]
fn def_binds_a_name_to_a_value() {
    // (def x 5)
    let r = parse_all(vec![
        tok(TType::LParen, 1, 1),
        tok(TType::Def, 1, 2),
        ident("x", 1, 6),
        tok(TType::Number(5), 1, 8),
        tok(TType::RParen, 1, 9),
        eof(1, 10),
    ]);
    assert_eq!(
        r,
        Ok(vec![Expr::Def("x".to_string(), Box::new(Expr::Integer(5)))])
    );
}

#[test]
fn lambda_application_desugars_to_curried_calls() {
    // ((lambda (x y) x) 1 2)
    let r = parse_all(vec![
        tok(TType::LParen, 1, 1),
        tok(TType::LParen, 1, 2),
        tok(TType::Lambda, 1, 3),
        tok(TType::LParen, 1, 10),
        ident("x", 1, 11),
        ident("y", 1, 13),
        tok(TType::RParen, 1, 14),
        ident("x", 1, 16),
        tok(TType::RParen, 1, 17),
        tok(TType::Number(1), 1, 19),
        tok(TType::Number(2), 1, 21),
        tok(TType::RParen, 1, 22),
        eof(1, 23),
    ]);
    let lambda = Expr::Lambda(
        "x".to_string(),
        Box::new(Expr::Lambda("y".to_string(), Box::new(var("x")))),
    );
    let expected = Expr::Call(
        Box::new(Expr::Call(Box::new(lambda), Box::new(Expr::Integer(1)))),
        Box::new(Expr::Integer(2)),
    );
    assert_eq!(r, Ok(vec![expected]));
}

#[test]
fn empty_parens_parse_to_unit() {
    // ()
    let r = parse_all(vec![
        tok(TType::LParen, 1, 1),
        tok(TType::RParen, 1, 2),
        eof(1, 3),
    ]);
    assert_eq!(r, Ok(vec![Expr::Unit]));
}

#[test]
fn double_open_is_transparent() {
    // ((f)) and (f) parse to the same shape
    let once = parse_all(vec![
        tok(TType::LParen, 1, 1),
        ident("f", 1, 2),
        tok(TType::RParen, 1, 3),
        eof(1, 4),
    ]);
    let twice = parse_all(vec![
        tok(TType::LParen, 1, 1),
        tok(TType::LParen, 1, 2),
        ident("f", 1, 3),
        tok(TType::RParen, 1, 4),
        tok(TType::RParen, 1, 5),
        eof(1, 6),
    ]);
    assert_eq!(once, Ok(vec![var("f")]));
    assert_eq!(once, twice);
}

#[test]
fn enum_with_empty_variants() {
    // (enum Color (Red) (Green) (Blue))
    let r = parse_all(vec![
        tok(TType::LParen, 1, 1),
        tok(TType::Enum, 1, 2),
        ident("Color", 1, 7),
        tok(TType::LParen, 1, 13),
        ident("Red", 1, 14),
        tok(TType::RParen, 1, 17),
        tok(TType::LParen, 1, 19),
        ident("Green", 1, 20),
        tok(TType::RParen, 1, 25),
        tok(TType::LParen, 1, 27),
        ident("Blue", 1, 28),
        tok(TType::RParen, 1, 32),
        tok(TType::RParen, 1, 33),
        eof(1, 34),
    ]);
    assert_eq!(
        r,
        Ok(vec![Expr::Enum(
            "Color".to_string(),
            vec!["Red".to_string(), "Green".to_string(), "Blue".to_string()],
            vec![0, 0, 0],
        )])
    );
}

#[test]
fn enum_variant_counts_fields_and_discards_their_names() {
    // (enum Pair (Mk a b))
    let r = parse_all(vec![
        tok(TType::LParen, 1, 1),
        tok(TType::Enum, 1, 2),
        ident("Pair", 1, 7),
        tok(TType::LParen, 1, 12),
        ident("Mk", 1, 13),
        ident("a", 1, 16),
        ident("b", 1, 18),
        tok(TType::RParen, 1, 19),
        tok(TType::RParen, 1, 20),
        eof(1, 21),
    ]);
    assert_eq!(
        r,
        Ok(vec![Expr::Enum(
            "Pair".to_string(),
            vec!["Mk".to_string()],
            vec![2],
        )])
    );
}

#[test]
fn enum_name_must_be_capitalized() {
    // (enum color (Red))
    let r = parse_all(vec![
        tok(TType::LParen, 1, 1),
        tok(TType::Enum, 1, 2),
        ident("color", 1, 7),
        tok(TType::LParen, 1, 13),
        ident("Red", 1, 14),
        tok(TType::RParen, 1, 17),
        tok(TType::RParen, 1, 18),
        eof(1, 19),
    ]);
    assert_eq!(r, Err(ParseError::EnumNotCapitalized { line: 1, col: 7 }));
}

#[test]
fn enum_variant_must_be_capitalized() {
    // (enum Color (red))
    let r = parse_all(vec![
        tok(TType::LParen, 1, 1),
        tok(TType::Enum, 1, 2),
        ident("Color", 1, 7),
        tok(TType::LParen, 1, 13),
        ident("red", 1, 14),
        tok(TType::RParen, 1, 17),
        tok(TType::RParen, 1, 18),
        eof(1, 19),
    ]);
    assert_eq!(
        r,
        Err(ParseError::VariantNotCapitalized { line: 1, col: 14 })
    );
}

#[test]
fn unterminated_def_reports_unfinished_expression() {
    // (def x
    let r = parse_all(vec![
        tok(TType::LParen, 1, 1),
        tok(TType::Def, 1, 2),
        ident("x", 1, 6),
        eof(1, 7),
    ]);
    assert_eq!(r, Err(ParseError::Unfinished { line: 1, col: 7 }));
}

#[test]
fn bare_closing_paren_is_rejected() {
    // )
    let r = parse_all(vec![tok(TType::RParen, 3, 4), eof(3, 5)]);
    assert_eq!(r, Err(ParseError::UnexpectedClosing { line: 3, col: 4 }));
}

#[test]
fn bare_keyword_is_rejected() {
    // def
    let r = parse_all(vec![tok(TType::Def, 2, 1), eof(2, 4)]);
    assert_eq!(r, Err(ParseError::UnexpectedKeyword { line: 2, col: 1 }));
}

#[test]
fn literal_cannot_open_a_form() {
    // (5)
    let r = parse_all(vec![
        tok(TType::LParen, 1, 1),
        tok(TType::Number(5), 1, 2),
        tok(TType::RParen, 1, 3),
        eof(1, 4),
    ]);
    assert_eq!(
        r,
        Err(ParseError::BadForm {
            found: TKind::Number,
            line: 1,
            col: 2
        })
    );
}

#[test]
fn def_requires_an_identifier() {
    // (def 5)
    let r = parse_all(vec![
        tok(TType::LParen, 1, 1),
        tok(TType::Def, 1, 2),
        tok(TType::Number(5), 1, 6),
        tok(TType::RParen, 1, 7),
        eof(1, 8),
    ]);
    assert_eq!(
        r,
        Err(ParseError::Expected {
            expected: TKind::Ident,
            found: TKind::Number,
            line: 1,
            col: 6
        })
    );
}

#[test]
fn multi_argument_call_folds_left() {
    // (f a b c)
    let r = parse_all(vec![
        tok(TType::LParen, 1, 1),
        ident("f", 1, 2),
        ident("a", 1, 4),
        ident("b", 1, 6),
        ident("c", 1, 8),
        tok(TType::RParen, 1, 9),
        eof(1, 10),
    ]);
    let expected = Expr::Call(
        Box::new(Expr::Call(
            Box::new(Expr::Call(Box::new(var("f")), Box::new(var("a")))),
            Box::new(var("b")),
        )),
        Box::new(var("c")),
    );
    assert_eq!(r, Ok(vec![expected]));
}

#[test]
fn form_may_be_closed_by_end_of_input() {
    // (def x 5   — with no closing paren before the sentinel
    let r = parse_all(vec![
        tok(TType::LParen, 1, 1),
        tok(TType::Def, 1, 2),
        ident("x", 1, 6),
        tok(TType::Number(5), 1, 8),
        eof(1, 9),
    ]);
    assert_eq!(
        r,
        Ok(vec![Expr::Def("x".to_string(), Box::new(Expr::Integer(5)))])
    );
}

#[test]
fn several_top_level_forms_keep_source_order() {
    // x 5 ()
    let r = parse_all(vec![
        ident("x", 1, 1),
        tok(TType::Number(5), 1, 3),
        tok(TType::LParen, 1, 5),
        tok(TType::RParen, 1, 6),
        eof(1, 7),
    ]);
    assert_eq!(r, Ok(vec![var("x"), Expr::Integer(5), Expr::Unit]));
}

#[test]
fn empty_input_parses_to_nothing() {
    assert_eq!(parse_all(vec![eof(1, 1)]), Ok(vec![]));
    assert_eq!(parse_all(vec![]), Ok(vec![]));
}

#[test]
fn reparsing_identical_tokens_gives_identical_trees() {
    let build = || {
        vec![
            tok(TType::LParen, 1, 1),
            tok(TType::Def, 1, 2),
            ident("x", 1, 6),
            tok(TType::Number(5), 1, 8),
            tok(TType::RParen, 1, 9),
            eof(1, 10),
        ]
    };
    let first = parse_all(build());
    let second = parse_all(build());
    assert!(first.is_ok());
    assert_eq!(first, second);
}

#[test]
fn first_error_aborts_the_whole_parse() {
    // x ) y — the bare `)` stops everything; `y` is never reported
    let r = parse_all(vec![
        ident("x", 1, 1),
        tok(TType::RParen, 1, 3),
        ident("y", 1, 5),
        eof(1, 6),
    ]);
    assert_eq!(r, Err(ParseError::UnexpectedClosing { line: 1, col: 3 }));
}

#[test]
fn accumulator_survives_an_error() {
    // x ) y — the error does not disturb what was already parsed: a second
    // pass resumes after the offending token and still returns `x` first
    let mut parser = Parser::new(vec![
        ident("x", 1, 1),
        tok(TType::RParen, 1, 3),
        ident("y", 1, 5),
        eof(1, 6),
    ]);
    let first = parser.parse();
    assert_eq!(first, Err(ParseError::UnexpectedClosing { line: 1, col: 3 }));
    let second = parser.parse();
    assert_eq!(second, Ok(vec![var("x"), var("y")]));
}

#[test]
fn lambda_without_arguments_returns_its_body() {
    // (lambda () 5)
    let r = parse_all(vec![
        tok(TType::LParen, 1, 1),
        tok(TType::Lambda, 1, 2),
        tok(TType::LParen, 1, 9),
        tok(TType::RParen, 1, 10),
        tok(TType::Number(5), 1, 12),
        tok(TType::RParen, 1, 13),
        eof(1, 14),
    ]);
    assert_eq!(r, Ok(vec![Expr::Integer(5)]));
}

#[test]
fn diagnostics_render_with_position_prefix() {
    let e = ParseError::Unfinished { line: 1, col: 7 };
    assert_eq!(e.render(), "1:7 | Unfinished expression.");

    let e = ParseError::Expected {
        expected: TKind::Ident,
        found: TKind::Number,
        line: 12,
        col: 345,
    };
    assert_eq!(e.render(), "12:345 | Expected Identifier, found Number.");

    let e = ParseError::UnexpectedClosing { line: 3, col: 4 };
    assert_eq!(e.render(), "3:4 | Unexpected Closing Parenthese.");

    let e = ParseError::UnexpectedKeyword { line: 2, col: 1 };
    assert_eq!(e.render(), "2:1 | Unexpected Keyword.");

    let e = ParseError::BadForm {
        found: TKind::Str,
        line: 10,
        col: 20,
    };
    assert_eq!(
        e.render(),
        "10:20 | Expected Closing Parenthese, Opening Parenthese or Identifier, found String."
    );

    let e = ParseError::EnumNotCapitalized { line: 1, col: 7 };
    assert_eq!(
        e.render(),
        "1:7 | Enum names have to start with a capital letter."
    );

    let e = ParseError::VariantNotCapitalized { line: 1, col: 14 };
    assert_eq!(
        e.render(),
        "1:14 | Enum variant names have to start with a capital letter."
    );
}

#[test]
fn numbers_render_in_decimal() {
    assert_eq!(orion::diag::u32_dec(0), "0");
    assert_eq!(orion::diag::u32_dec(7), "7");
    assert_eq!(orion::diag::u32_dec(10), "10");
    assert_eq!(orion::diag::u32_dec(409), "409");
    assert_eq!(orion::diag::u32_dec(u32::MAX), "4294967295");
}

#[test]
fn unfinished_expression_after_open_paren() {
    // (
    let r = parse_all(vec![tok(TType::LParen, 1, 1), eof(1, 2)]);
    assert_eq!(r, Err(ParseError::Unfinished { line: 1, col: 2 }));
}
