use std::collections::VecDeque;

use anillo::{Lexer, Ring, Token, TokenInfo};

fn lex(src: &str) -> Result<VecDeque<TokenInfo>, anillo::CompilationError> {
    let mut lexer = Lexer::new(src.as_bytes().to_vec());
    lexer.tokenize()
}

fn shown(tokens: &VecDeque<TokenInfo>) -> Vec<String> {
    tokens.iter().map(|t| t.to_display_string()).collect()
}

#[test]
fn valid_tokens() {
    const EXAMPLE: &str = "extern Func()    ";
    let tokens = lex(EXAMPLE).unwrap();
    assert_eq!(
        shown(&tokens),
        vec![
            "TokenInfo {token = Token::KeywordExtern, line = 1, col = 8}",
            "TokenInfo {token = Token::Identifier(Func), line = 1, col = 13}",
            "TokenInfo {token = Token::LeftParen, line = 1, col = 13}",
            "TokenInfo {token = Token::RightParen, line = 1, col = 14}",
        ]
    );
}

#[test]
fn invalid_token() {
    const EXAMPLE: &str = "extern Func() #$%^";
    let err = lex(EXAMPLE).unwrap_err();
    assert_eq!(err.line(), 1);
    assert_eq!(err.column(), 16);
    assert_eq!(err.diagnostic(), "Unrecognized character type: #");
    assert!(err.src_available());
}

#[test]
fn keywords_and_identifiers() {
    let tokens = lex("extern WithLevel User Super isr call main 42 ").unwrap();
    let kinds: Vec<String> = tokens.iter().map(|t| t.borrow_token().to_display_string()).collect();
    assert_eq!(
        kinds,
        vec![
            "Token::KeywordExtern",
            "Token::KeywordWithLevel",
            "Token::KeywordPrivilege(Ring::(User))",
            "Token::KeywordPrivilege(Ring::(Super))",
            "Token::KeywordIsr",
            "Token::KeywordCall",
            "Token::Identifier(main)",
            "Token::Identifier(42)",
        ]
    );
    assert!(matches!(tokens[2].borrow_token(), Token::KeywordPrivilege(Ring::User)));
}

#[test]
fn punctuation_tokens() {
    let tokens = lex("({,$})").unwrap();
    let kinds: Vec<String> = tokens.iter().map(|t| t.borrow_token().to_display_string()).collect();
    assert_eq!(
        kinds,
        vec![
            "Token::LeftParen",
            "Token::LeftBracket",
            "Token::Comma",
            "Token::Dollar",
            "Token::RightBracket",
            "Token::RightParen",
        ]
    );
    let cols: Vec<u32> = tokens.iter().map(|t| t.col()).collect();
    assert_eq!(cols, vec![2, 3, 4, 5, 6, 7]);
}

#[test]
fn newline_moves_to_next_line_column_zero() {
    let tokens = lex("isr\nfoo(").unwrap();
    // The word before a line feed takes the position after the line feed.
    assert!(matches!(tokens[0].borrow_token(), Token::KeywordIsr));
    assert_eq!((tokens[0].line(), tokens[0].col()), (2, 0));
    assert!(matches!(tokens[1].borrow_token(), Token::Identifier(s) if s == "foo"));
    assert_eq!((tokens[1].line(), tokens[1].col()), (2, 4));
    assert_eq!((tokens[2].line(), tokens[2].col()), (2, 4));
}

#[test]
fn trailing_word_ends_with_the_input() {
    let tokens = lex("extern foo").unwrap();
    assert_eq!(tokens.len(), 2);
    assert!(matches!(tokens[0].borrow_token(), Token::KeywordExtern));
    assert!(matches!(tokens[1].borrow_token(), Token::Identifier(s) if s == "foo"));
    assert_eq!((tokens[1].line(), tokens[1].col()), (1, 11));
    let tokens = lex("isr").unwrap();
    assert_eq!(tokens.len(), 1);
    assert!(matches!(tokens[0].borrow_token(), Token::KeywordIsr));
    assert_eq!((tokens[0].line(), tokens[0].col()), (1, 4));
}

#[test]
fn empty_source_gives_no_tokens() {
    assert_eq!(lex("").unwrap().len(), 0);
    assert_eq!(lex(" \t\r\n\x0c").unwrap().len(), 0);
}

#[test]
fn vertical_tab_is_not_whitespace() {
    let err = lex("a\x0bb").unwrap_err();
    assert_eq!((err.line(), err.column()), (1, 3));
    assert_eq!(err.diagnostic(), "Unrecognized character type: \u{b}");
}

#[test]
fn non_ascii_byte_is_an_error_shown_as_latin1() {
    let mut lexer = Lexer::new(vec![b'a', b' ', 0xC3, b'x']);
    let err = lexer.tokenize().unwrap_err();
    assert_eq!((err.line(), err.column()), (1, 4));
    assert_eq!(err.diagnostic(), "Unrecognized character type: \u{c3}");
}

#[test]
fn tokenize_reads_up_to_the_error_then_continues() {
    let mut lexer = Lexer::new(b"a #b c ".to_vec());
    assert!(lexer.tokenize().is_err());
    // The second call starts after the bad byte, at line 1 column 1 again.
    let rest = lexer.tokenize().unwrap();
    let shown: Vec<String> = rest.iter().map(|t| t.to_display_string()).collect();
    assert_eq!(
        shown,
        vec![
            "TokenInfo {token = Token::Identifier(b), line = 1, col = 3}",
            "TokenInfo {token = Token::Identifier(c), line = 1, col = 5}",
        ]
    );
    assert_eq!(lexer.tokenize().unwrap().len(), 0);
}

#[test]
fn tokenize_twice_after_success_gives_nothing() {
    let mut lexer = Lexer::new(b"isr ".to_vec());
    assert_eq!(lexer.tokenize().unwrap().len(), 1);
    assert_eq!(lexer.tokenize().unwrap().len(), 0);
}
