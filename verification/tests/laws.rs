use anillo::{Lexer, Parser, Ring};

fn known(b: u8) -> bool {
    b"(){},$".contains(&b) || b" \t\n\x0c\r".contains(&b) || b.is_ascii_alphanumeric()
}

#[test]
fn lexing_fails_exactly_on_unknown_bytes() {
    for b in 0..=255u8 {
        let src = vec![b'a', b' ', b, b' ', b'c', b' '];
        let r = Lexer::new(src).tokenize();
        assert_eq!(r.is_ok(), known(b), "byte {}", b);
        if let Err(e) = r {
            assert_eq!((e.line(), e.column()), (1, 4));
        }
    }
}

#[test]
fn lexing_has_no_lookahead() {
    let src = b"extern f(u8 a) WithLevel(User)\nisr t(3) { call f($) }\n";
    let whole: Vec<String> = Lexer::new(src.to_vec())
        .tokenize()
        .unwrap()
        .iter()
        .map(|t| t.to_display_string())
        .collect();
    for k in 0..=src.len() {
        // A prefix that ends inside a word gives that partial word as its last
        // token; the tokens before it are settled.
        let inside_word = k > 0 && src[k - 1].is_ascii_alphanumeric();
        let part: Vec<String> = Lexer::new(src[..k].to_vec())
            .tokenize()
            .unwrap()
            .iter()
            .map(|t| t.to_display_string())
            .collect();
        let settled = if inside_word { part.len() - 1 } else { part.len() };
        assert!(settled <= whole.len());
        assert_eq!(part[..settled], whole[..settled]);
    }
}

#[test]
fn successful_parse_reads_every_token() {
    let tokens = Lexer::new(b"extern f() isr t(1) { call f() } ".to_vec()).tokenize().unwrap();
    let mut parser = Parser::new(tokens);
    assert!(parser.run().is_ok());
    assert!(parser.tokens().is_empty());
}

#[test]
fn failed_parse_stops_after_the_bad_token() {
    let tokens = Lexer::new(b"extern ( f ) ".to_vec()).tokenize().unwrap();
    let mut parser = Parser::new(tokens);
    assert!(parser.run().is_err());
    assert_eq!(parser.tokens().len(), 2);
}

#[test]
fn privilege_order_is_total() {
    let all = [Ring::User, Ring::Super];
    for a in all {
        for b in all {
            assert!(a.partial_cmp(&b).is_some());
            assert_eq!(a == b, a.partial_cmp(&b) == Some(std::cmp::Ordering::Equal));
            assert_eq!(a < b, b > a);
        }
    }
}

#[test]
fn verdict_does_not_depend_on_item_order() {
    let check = |src: &str| {
        let tokens = Lexer::new(src.as_bytes().to_vec()).tokenize().unwrap();
        let ast = Parser::new(tokens).run().unwrap();
        let mut warnings = Vec::new();
        ast.verify(&mut warnings).is_ok()
    };
    assert!(check("extern f() isr i(1) { call f() } "));
    assert!(check("isr i(1) { call f() } extern f() "));
    assert!(!check("isr i(1) WithLevel(User) { call f() } extern f() "));
    assert!(!check("extern f() isr i(1) WithLevel(User) { call f() } "));
}
