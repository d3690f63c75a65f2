use lexparse::lexer::{DirectiveKind, Lexer, LexingDirective, LiteralMatch};
use lexparse::span::LineColumn;
use lexparse::token::{Token, Tokenize};

fn regex_directive(name: &str, ignore: bool, pattern: &str) -> LexingDirective<LiteralMatch> {
    LexingDirective {
        name: name.to_string(),
        ignore,
        kind: DirectiveKind::RegexMatch(pattern.to_string()),
    }
}

fn literal_directive(name: &str, ignore: bool, literal: &str) -> LexingDirective<LiteralMatch> {
    LexingDirective {
        name: name.to_string(),
        ignore,
        kind: DirectiveKind::CustomMatch(LiteralMatch { literal: literal.chars().collect() }),
    }
}

fn lexer_for(text: &str, directives: Vec<LexingDirective<LiteralMatch>>) -> Lexer<LiteralMatch> {
    Lexer::new("f".to_string(), text.chars().collect(), directives)
}

#[test]
fn ignore_directive_skips_whitespace() {
    let mut lexer = lexer_for(
        "a b",
        vec![
            regex_directive("WhiteSpace", true, r"\s"),
            regex_directive("Ident", false, "[a-z]+"),
        ],
    );
    let tokens = lexer.read_all_tokens().unwrap();
    assert_eq!(tokens.len(), 2);
    assert_eq!(tokens[0].raw(), "a");
    assert_eq!(tokens[0].name(), "Ident");
    assert_eq!(tokens[0].kind, 1);
    assert_eq!(tokens[1].raw(), "b");
    assert_eq!(tokens[1].kind, 1);
    assert_eq!(tokens[0].span.start().column(), 1);
    assert_eq!(tokens[1].span.start().column(), 3);
    assert_eq!(tokens[0].span.start().line(), 1);
    assert_eq!(tokens[1].span.start().line(), 1);
}

#[test]
fn declaration_order_wins_over_later_directives() {
    // Both Ident and Keyword match "if"; the earlier directive must win.
    let mut lexer = lexer_for(
        "if",
        vec![
            regex_directive("Ident", false, "[a-z]+"),
            regex_directive("Keyword", false, "if"),
        ],
    );
    let tokens = lexer.read_all_tokens().unwrap();
    assert_eq!(tokens.len(), 1);
    assert_eq!(tokens[0].name(), "Ident");
    assert_eq!(tokens[0].kind, 0);
    assert_eq!(tokens[0].raw(), "if");
}

#[test]
fn specific_before_general_keeps_keywords() {
    let mut lexer = lexer_for(
        "if x",
        vec![
            regex_directive("WhiteSpace", true, r"\s"),
            regex_directive("Keyword", false, "if"),
            regex_directive("Ident", false, "[a-z]+"),
        ],
    );
    let tokens = lexer.read_all_tokens().unwrap();
    assert_eq!(tokens.len(), 2);
    assert_eq!(tokens[0].name(), "Keyword");
    assert_eq!(tokens[1].name(), "Ident");
    assert_eq!(tokens[1].raw(), "x");
}

#[test]
fn unrecognized_character_is_fatal_with_location() {
    let mut lexer = lexer_for(
        "ab ?",
        vec![
            regex_directive("WhiteSpace", true, r"\s"),
            regex_directive("Ident", false, "[a-z]+"),
        ],
    );
    let err = lexer.read_all_tokens().unwrap_err();
    assert_eq!(err.message, "Unrecognized character: ?");
    assert_eq!(*err.span.start(), LineColumn::new(1, 4));
    assert_eq!(err.span.file(), "f");
}

#[test]
fn newlines_advance_lines_and_reset_columns() {
    let mut lexer = lexer_for(
        "a\nbc",
        vec![
            regex_directive("WhiteSpace", true, r"\s"),
            regex_directive("Ident", false, "[a-z]+"),
        ],
    );
    let tokens = lexer.read_all_tokens().unwrap();
    assert_eq!(tokens.len(), 2);
    assert_eq!(tokens[1].raw(), "bc");
    assert_eq!(tokens[1].span.start().line(), 2);
    assert_eq!(tokens[1].span.start().column(), 1);
    assert_eq!(tokens[1].span.end().line(), 2);
    assert_eq!(tokens[1].span.end().column(), 3);
}

#[test]
fn empty_input_yields_no_tokens() {
    let mut lexer = lexer_for("", vec![regex_directive("Ident", false, "[a-z]+")]);
    let tokens = lexer.read_all_tokens().unwrap();
    assert!(tokens.is_empty());
}

#[test]
fn trailing_ignored_text_still_ends_cleanly() {
    let mut lexer = lexer_for(
        "a  ",
        vec![
            regex_directive("WhiteSpace", true, r"\s"),
            regex_directive("Ident", false, "[a-z]+"),
        ],
    );
    let tokens = lexer.read_all_tokens().unwrap();
    assert_eq!(tokens.len(), 1);
    assert_eq!(tokens[0].raw(), "a");
}

#[test]
fn custom_matcher_matches_fixed_text() {
    let mut lexer = lexer_for(
        "<=x",
        vec![
            literal_directive("Arrow", false, "<="),
            regex_directive("Ident", false, "[a-z]+"),
        ],
    );
    let tokens = lexer.read_all_tokens().unwrap();
    assert_eq!(tokens.len(), 2);
    assert_eq!(tokens[0].name(), "Arrow");
    assert_eq!(tokens[0].raw(), "<=");
    assert_eq!(tokens[1].raw(), "x");
}

#[test]
fn read_next_token_steps_and_reports_eof() {
    let mut lexer = lexer_for(
        "a b",
        vec![
            regex_directive("WhiteSpace", true, r"\s"),
            regex_directive("Ident", false, "[a-z]+"),
        ],
    );
    let first = lexer.read_next_token().unwrap().unwrap();
    assert_eq!(first.raw(), "a");
    let second = lexer.read_next_token().unwrap().unwrap();
    assert_eq!(second.raw(), "b");
    assert!(lexer.read_next_token().unwrap().is_none());
    assert!(lexer.read_next_token().unwrap().is_none());
}

#[test]
fn tokenize_reads_through_the_capability() {
    let mut lexer = lexer_for("x", vec![regex_directive("Ident", false, "[a-z]+")]);
    let t: Option<Token> = Token::tokenize(&mut lexer).unwrap();
    assert_eq!(t.unwrap().raw(), "x");
    let none: Option<Token> = Token::tokenize(&mut lexer).unwrap();
    assert!(none.is_none());
}

#[test]
fn empty_regex_match_does_not_stall_the_scan() {
    // "[0-9]*" accepts the empty prefix at 'a'; an empty match is no match,
    // so the later directive produces the token.
    let mut lexer = lexer_for(
        "a",
        vec![
            regex_directive("Digits", false, "[0-9]*"),
            regex_directive("Ident", false, "[a-z]+"),
        ],
    );
    let tokens = lexer.read_all_tokens().unwrap();
    assert_eq!(tokens.len(), 1);
    assert_eq!(tokens[0].name(), "Ident");
}

#[test]
fn invalid_pattern_matches_nothing() {
    let mut lexer = lexer_for(
        "a",
        vec![
            regex_directive("Broken", false, "("),
            regex_directive("Ident", false, "[a-z]+"),
        ],
    );
    let tokens = lexer.read_all_tokens().unwrap();
    assert_eq!(tokens.len(), 1);
    assert_eq!(tokens[0].name(), "Ident");
}

#[test]
fn raw_string_like_lexeme_via_regex() {
    let mut lexer = lexer_for(
        "\"ab\" x",
        vec![
            regex_directive("WhiteSpace", true, r"\s"),
            regex_directive("String", false, "\"((\\\")|[^\"])*\""),
            regex_directive("Ident", false, "[a-z]+"),
        ],
    );
    let tokens = lexer.read_all_tokens().unwrap();
    assert_eq!(tokens.len(), 2);
    assert_eq!(tokens[0].name(), "String");
    assert_eq!(tokens[0].raw(), "\"ab\"");
}
