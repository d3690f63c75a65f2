use std::rc::Rc;

use lexparse::lexer::{DirectiveKind, Lexer, LexingDirective, LiteralMatch};
use lexparse::parser::{Error, Parser};
use lexparse::span::{LineColumn, Span};
use lexparse::token::{Kind, Token};

fn tok(kind: u64, raw: &str, column: u32) -> Token {
    Token {
        kind,
        name: format!("K{}", kind),
        raw: raw.to_string(),
        span: Span::new(
            "f".to_string(),
            LineColumn::new(1, column),
            LineColumn::new(1, column + raw.len() as u32),
        ),
    }
}

fn parser_of(tokens: Vec<Token>) -> Parser<Token> {
    Parser::new(Rc::new(tokens))
}

#[test]
fn scalar_kind_parses_matching_token() {
    let mut p = parser_of(vec![tok(0, "a", 1)]);
    let k: Kind<0> = p.parse().unwrap();
    assert_eq!(k.token.raw(), "a");
    assert_eq!(p.current_offset(), 1);
}

#[test]
fn scalar_kind_rejects_other_token_and_rolls_back() {
    let mut p = parser_of(vec![tok(3, "a", 1)]);
    let r: Result<Kind<0>, Error> = p.parse();
    assert!(r.is_err());
    assert_eq!(p.current_offset(), 0);
}

#[test]
fn any_token_scalar_fails_only_at_eof() {
    let mut p = parser_of(vec![tok(7, "x", 1)]);
    let t: Token = p.parse().unwrap();
    assert_eq!(t.raw(), "x");
    let r: Result<Token, Error> = p.parse();
    assert!(r.is_err());
    assert_eq!(p.current_offset(), 1);
}

#[test]
fn tuple_parses_components_in_order() {
    let mut p = parser_of(vec![tok(0, "a", 1), tok(1, "b", 2), tok(2, "c", 3)]);
    let (a, b, c): (Kind<0>, Kind<1>, Kind<2>) = p.parse().unwrap();
    assert_eq!(a.token.raw(), "a");
    assert_eq!(b.token.raw(), "b");
    assert_eq!(c.token.raw(), "c");
    assert_eq!(p.current_offset(), 3);
}

#[test]
fn tuple_failure_is_all_or_nothing() {
    // The first component matches, the second does not: the cursor must be
    // exactly where it was before the attempt.
    let mut p = parser_of(vec![tok(0, "a", 1), tok(5, "b", 2)]);
    let r: Result<(Kind<0>, Kind<1>), Error> = p.parse();
    assert!(r.is_err());
    assert_eq!(p.current_offset(), 0);
    // The prefix is untouched, so a correct grammar still parses.
    let (a, b): (Kind<0>, Kind<5>) = p.parse().unwrap();
    assert_eq!(a.token.raw(), "a");
    assert_eq!(b.token.raw(), "b");
}

#[test]
fn eleven_component_tuple_parses() {
    let tokens: Vec<Token> = (0u64..11).map(|k| tok(k, "t", 1 + k as u32)).collect();
    let mut p = parser_of(tokens);
    let r: Result<
        (
            Kind<0>,
            Kind<1>,
            Kind<2>,
            Kind<3>,
            Kind<4>,
            Kind<5>,
            Kind<6>,
            Kind<7>,
            Kind<8>,
            Kind<9>,
            Kind<10>,
        ),
        Error,
    > = p.parse_to_eof();
    assert!(r.is_ok());
    assert_eq!(p.current_offset(), 11);
}

#[test]
fn sequence_collects_until_first_failure() {
    let mut p = parser_of(vec![tok(0, "a", 1), tok(0, "b", 2), tok(1, "c", 3)]);
    let v: Vec<Kind<0>> = p.parse().unwrap();
    assert_eq!(v.len(), 2);
    assert_eq!(v[0].token.raw(), "a");
    assert_eq!(v[1].token.raw(), "b");
    assert_eq!(p.current_offset(), 2);
}

#[test]
fn sequence_never_fails_even_on_no_match() {
    let mut p = parser_of(vec![tok(1, "c", 1)]);
    let v: Vec<Kind<0>> = p.parse().unwrap();
    assert_eq!(v.len(), 0);
    assert_eq!(p.current_offset(), 0);
}

#[test]
fn optional_reports_absence_without_failing() {
    let mut p = parser_of(vec![tok(1, "c", 1)]);
    let absent: Option<Kind<0>> = p.parse().unwrap();
    assert!(absent.is_none());
    assert_eq!(p.current_offset(), 0);
    let present: Option<Kind<1>> = p.parse().unwrap();
    assert_eq!(present.unwrap().token.raw(), "c");
    assert_eq!(p.current_offset(), 1);
}

#[test]
fn parse_to_eof_accepts_exactly_whole_input() {
    let mut p = parser_of(vec![tok(0, "a", 1), tok(0, "b", 2)]);
    let v: Vec<Kind<0>> = p.parse_to_eof().unwrap();
    assert_eq!(v.len(), 2);
}

#[test]
fn parse_to_eof_rejects_partial_parse_and_rolls_back() {
    let mut p = parser_of(vec![tok(0, "a", 1), tok(1, "b", 2)]);
    let r: Result<Vec<Kind<0>>, Error> = p.parse_to_eof();
    let e = r.unwrap_err();
    assert_eq!(e.message(), "Expected EOF");
    // The error is located at the first unconsumed token.
    assert_eq!(*e.span().as_ref().unwrap().start(), LineColumn::new(1, 2));
    assert_eq!(p.current_offset(), 0);
}

#[test]
fn empty_token_sequence_parses_empty_star_to_eof() {
    let mut p = parser_of(vec![]);
    let v: Vec<Kind<0>> = p.parse_to_eof().unwrap();
    assert!(v.is_empty());
    assert!(p.get_next_token().is_none());
    assert_eq!(p.current_offset(), 0);
}

#[test]
fn peek_never_moves_the_cursor() {
    let mut p = parser_of(vec![tok(0, "a", 1)]);
    assert!(p.peek::<Kind<0>>());
    assert_eq!(p.current_offset(), 0);
    assert!(!p.peek::<Kind<1>>());
    assert_eq!(p.current_offset(), 0);
    let _: Kind<0> = p.parse().unwrap();
}

#[test]
fn get_next_token_advances_once_then_stops_at_end() {
    let mut p = parser_of(vec![tok(4, "z", 1)]);
    let t = p.get_next_token().map(|t| t.raw().clone());
    assert_eq!(t.unwrap(), "z");
    assert_eq!(p.current_offset(), 1);
    assert!(p.get_next_token().is_none());
    assert_eq!(p.current_offset(), 1);
}

#[test]
fn cloned_cursor_shares_tokens_and_copies_offset() {
    let mut p = parser_of(vec![tok(0, "a", 1), tok(1, "b", 2)]);
    let _: Kind<0> = p.parse().unwrap();
    let mut q = p.clone();
    let b: Kind<1> = q.parse().unwrap();
    assert_eq!(b.token.raw(), "b");
    // the original cursor is unaffected by the clone's progress
    assert_eq!(p.current_offset(), 1);
    let b2: Kind<1> = p.parse().unwrap();
    assert_eq!(b2.token.raw(), "b");
}

#[test]
fn ownership_wrappers_pass_through() {
    let mut p = parser_of(vec![tok(0, "a", 1), tok(0, "b", 2)]);
    let a: Rc<Kind<0>> = p.parse().unwrap();
    assert_eq!(a.token.raw(), "a");
    let b: std::sync::Arc<Kind<0>> = p.parse().unwrap();
    assert_eq!(b.token.raw(), "b");
    let r: Result<Rc<Kind<1>>, Error> = p.parse();
    assert!(r.is_err());
    assert_eq!(p.current_offset(), 2);
}

#[test]
fn error_new_carries_message_and_span() {
    let sp = Span::new("f".to_string(), LineColumn::new(1, 2), LineColumn::new(1, 3));
    let r: Result<(), Error> = Error::new("boom".to_string(), Some(sp));
    let e = r.unwrap_err();
    assert_eq!(e.message(), "boom");
    assert_eq!(e.to_display_string(), "boomf:1:2");
    let r2: Result<(), Error> = Error::new("quiet".to_string(), None);
    assert_eq!(r2.unwrap_err().to_display_string(), "quiet");
}

#[test]
fn lexer_output_feeds_the_parser() {
    let directives: Vec<LexingDirective<LiteralMatch>> = vec![
        LexingDirective {
            name: "WhiteSpace".to_string(),
            ignore: true,
            kind: DirectiveKind::RegexMatch(r"\s".to_string()),
        },
        LexingDirective {
            name: "Ident".to_string(),
            ignore: false,
            kind: DirectiveKind::RegexMatch("[a-z]+".to_string()),
        },
        LexingDirective {
            name: "Number".to_string(),
            ignore: false,
            kind: DirectiveKind::RegexMatch("[0-9]+".to_string()),
        },
    ];
    let mut lexer = Lexer::new("f".to_string(), "x 12 y".chars().collect(), directives);
    let tokens = lexer.read_all_tokens().unwrap();
    let mut p = Parser::new(Rc::new(tokens));
    let (x, n, y): (Kind<1>, Kind<2>, Kind<1>) = p.parse_to_eof().unwrap();
    assert_eq!(x.token.raw(), "x");
    assert_eq!(n.token.raw(), "12");
    assert_eq!(y.token.raw(), "y");
}
