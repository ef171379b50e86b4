use pajama::lexer::Lexer;
use pajama::token::{LexError, Token, TokenPosition};

fn tokens_of(src: &str) -> Vec<Token> {
    let mut lexer = Lexer::new(src);
    lexer.tokenize().expect("tokenization failed")
}

fn lex_error_of(src: &str) -> LexError {
    let mut lexer = Lexer::new(src);
    lexer.tokenize().expect_err("tokenization unexpectedly succeeded")
}

#[test]
fn def_foo_end() {
    let tokens = tokens_of("def foo end");
    assert_eq!(tokens.len(), 5);
    assert_eq!(tokens[0], Token::Def);
    assert_eq!(tokens[1], Token::Space(1));
    assert_eq!(
        tokens[2],
        Token::Ident(
            TokenPosition { line: 1, start_column: 5, end_column: 7 },
            String::from("foo"),
        )
    );
    assert_eq!(tokens[3], Token::Space(1));
    assert_eq!(tokens[4], Token::End);
}

#[test]
fn three_newlines_collapse() {
    let tokens = tokens_of("\n\n\n");
    assert_eq!(tokens, vec![Token::NewLine(3)]);
}

#[test]
fn newline_runs_are_separate_tokens() {
    let tokens = tokens_of("\na\n\nb");
    assert_eq!(tokens.len(), 4);
    assert_eq!(tokens[0], Token::NewLine(1));
    assert!(matches!(&tokens[1], Token::Ident(p, s) if s == "a" && p.line == 2));
    assert_eq!(tokens[2], Token::NewLine(2));
    assert!(matches!(&tokens[3], Token::Ident(p, s) if s == "b" && p.line == 4));
}

#[test]
fn number_literal() {
    let tokens = tokens_of("12345");
    assert_eq!(
        tokens,
        vec![Token::Number(
            TokenPosition { line: 1, start_column: 1, end_column: 5 },
            12345,
        )]
    );
}

#[test]
fn number_at_u64_max_is_accepted() {
    let tokens = tokens_of("18446744073709551615");
    assert!(matches!(&tokens[0], Token::Number(_, v) if *v == u64::MAX));
}

#[test]
fn number_wider_than_u64_is_fatal_overflow() {
    let err = lex_error_of("18446744073709551616");
    assert_eq!(err, LexError::NumericLiteralOverflow { line: 1, column: 1 });
}

#[test]
fn uppercase_leading_name_is_const() {
    let tokens = tokens_of("Point");
    assert_eq!(
        tokens,
        vec![Token::Const(
            TokenPosition { line: 1, start_column: 1, end_column: 5 },
            String::from("Point"),
        )]
    );
}

#[test]
fn uppercase_name_with_mixed_tail_is_one_const() {
    let tokens = tokens_of("Point3d_x");
    assert!(matches!(&tokens[0], Token::Const(_, s) if s == "Point3d_x"));
    assert_eq!(tokens.len(), 1);
}

#[test]
fn attribute_name_excludes_the_at_sign() {
    let tokens = tokens_of("@velocity");
    assert_eq!(
        tokens,
        vec![Token::Attribute(
            TokenPosition { line: 1, start_column: 1, end_column: 9 },
            String::from("velocity"),
        )]
    );
}

#[test]
fn unterminated_string_keeps_the_rest_without_error() {
    let tokens = tokens_of("\"abc");
    assert!(matches!(&tokens[0], Token::StringLiteral(_, s) if s == "abc"));
    assert_eq!(tokens.len(), 1);
}

#[test]
fn string_escapes_decode_newline_and_return() {
    let tokens = tokens_of("\"a\\nb\\rc\"");
    assert!(matches!(&tokens[0], Token::StringLiteral(_, s) if s == "a\nb\rc"));
}

#[test]
fn other_backslash_sequences_stay_verbatim() {
    let tokens = tokens_of("\"a\\tb\"");
    assert!(matches!(&tokens[0], Token::StringLiteral(_, s) if s == "a\\tb"));
}

#[test]
fn newline_inside_a_string_advances_the_line() {
    let tokens = tokens_of("\"a\nb\"x");
    assert!(matches!(&tokens[0], Token::StringLiteral(_, s) if s == "a\nb"));
    assert!(matches!(&tokens[1], Token::Ident(p, s) if s == "x" && p.line == 2));
}

#[test]
fn comment_runs_to_end_of_line_inclusive() {
    let tokens = tokens_of("# hi\nx");
    assert_eq!(tokens.len(), 2);
    assert!(matches!(&tokens[0], Token::Comment(_, s) if s == "# hi\n"));
    assert!(matches!(&tokens[1], Token::Ident(p, s) if s == "x" && p.line == 2));
}

#[test]
fn comment_at_end_of_input() {
    let tokens = tokens_of("# tail");
    assert_eq!(tokens.len(), 1);
    assert!(matches!(&tokens[0], Token::Comment(_, s) if s == "# tail"));
}

#[test]
fn keywords_are_recognized() {
    let tokens = tokens_of("binary class def_e def end impl loop ret self struct trait unary");
    let kinds: Vec<&Token> = tokens.iter().filter(|t| !matches!(t, Token::Space(_))).collect();
    assert_eq!(
        kinds,
        vec![
            &Token::Binary,
            &Token::Class,
            &Token::DefE,
            &Token::Def,
            &Token::End,
            &Token::Impl,
            &Token::Loop,
            &Token::Ret,
            &Token::SelfRef,
            &Token::Struct,
            &Token::Trait,
            &Token::Unary,
        ]
    );
}

#[test]
fn near_keyword_is_an_ident() {
    let tokens = tokens_of("define");
    assert!(matches!(&tokens[0], Token::Ident(_, s) if s == "define"));
}

#[test]
fn punctuation_tokens() {
    let tokens = tokens_of("()[]{},.=");
    assert_eq!(
        tokens,
        vec![
            Token::LParen,
            Token::RParen,
            Token::LSquareBrace,
            Token::RSquareBrace,
            Token::LCurlyBrace,
            Token::RCurlyBrace,
            Token::Comma,
            Token::Dot,
            Token::Assign,
        ]
    );
}

#[test]
fn operators_single_and_double() {
    let tokens = tokens_of("+ * ** / % > - ->");
    let ops: Vec<&Token> = tokens.iter().filter(|t| !matches!(t, Token::Space(_))).collect();
    assert_eq!(
        ops,
        vec![
            &Token::Op(['+', '\u{0}', '\u{0}', '\u{0}']),
            &Token::Op(['*', '\u{0}', '\u{0}', '\u{0}']),
            &Token::Op(['*', '*', '\u{0}', '\u{0}']),
            &Token::Op(['/', '\u{0}', '\u{0}', '\u{0}']),
            &Token::Op(['%', '\u{0}', '\u{0}', '\u{0}']),
            &Token::Op(['>', '\u{0}', '\u{0}', '\u{0}']),
            &Token::Op(['-', '\u{0}', '\u{0}', '\u{0}']),
            &Token::Arrow,
        ]
    );
}

#[test]
fn spaces_collapse_into_one_token() {
    let tokens = tokens_of("a   b");
    assert_eq!(tokens.len(), 3);
    assert_eq!(tokens[1], Token::Space(3));
}

#[test]
fn empty_input_yields_no_tokens() {
    let tokens = tokens_of("");
    assert!(tokens.is_empty());
}

#[test]
fn unsupported_character_is_fatal() {
    let err = lex_error_of("?");
    assert_eq!(err, LexError::UnsupportedCharacter { line: 1, column: 1, character: '?' });
}

#[test]
fn unsupported_character_position_tracks_lines() {
    let err = lex_error_of("ab\ncd ?");
    assert_eq!(err, LexError::UnsupportedCharacter { line: 2, column: 4, character: '?' });
}

#[test]
fn single_lex_steps_walk_the_stream() {
    let mut lexer = Lexer::new("ret 7");
    assert_eq!(lexer.lex(), Ok(Some(Token::Ret)));
    assert_eq!(lexer.lex(), Ok(Some(Token::Space(1))));
    assert!(matches!(lexer.lex(), Ok(Some(Token::Number(_, 7)))));
    assert_eq!(lexer.lex(), Ok(None));
}
