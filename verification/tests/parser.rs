use std::collections::VecDeque;

use anillo::{Ast, CallArg, FuncArgType, Ingot, Lexer, Parser, Ring, Token, TokenInfo};

fn tokens(src: &str) -> VecDeque<TokenInfo> {
    Lexer::new(src.as_bytes().to_vec()).tokenize().unwrap()
}

fn parse(src: &str) -> Result<Ast, anillo::CompilationError> {
    Parser::new(tokens(src)).run()
}

fn parse_err(src: &str) -> (u32, u32, String) {
    let e = parse(src).unwrap_err();
    (e.line(), e.column(), e.diagnostic().to_string())
}

#[test]
fn total_parse() {
    let src = "extern handler(u8 num) WithLevel(User)\n\
               extern other()\n\
               isr timer(32) WithLevel(User) { call handler($) }\n\
               isr ignored(33) { }\n";
    let ast = parse(src).unwrap();
    let items = ast.as_vec();
    assert_eq!(items.len(), 4);
    match &items[0] {
        Ingot::ExternalFunction(f) => {
            assert_eq!(f.name(), "handler");
            assert_eq!(f.args().len(), 1);
            assert_eq!(f.args()[0].name(), "num");
            assert_eq!(f.args()[0].type_t(), FuncArgType::U8);
            assert_eq!(f.privilege(), Some(Ring::User));
        }
        other => panic!("unexpected {:?}", other),
    }
    match &items[1] {
        Ingot::ExternalFunction(f) => {
            assert_eq!(f.name(), "other");
            assert_eq!(f.args().len(), 0);
            assert_eq!(f.privilege(), None);
        }
        other => panic!("unexpected {:?}", other),
    }
    match &items[2] {
        Ingot::Isr(isr) => {
            assert_eq!(isr.name(), "timer");
            assert_eq!(isr.id(), 32);
            assert_eq!(isr.privilege(), Some(Ring::User));
            let call = isr.calling_func().as_ref().unwrap();
            assert_eq!(call.name(), "handler");
            assert_eq!(call.args().len(), 1);
            assert!(matches!(call.args()[0], CallArg::Dollar));
        }
        other => panic!("unexpected {:?}", other),
    }
    match &items[3] {
        Ingot::Isr(isr) => {
            assert_eq!(isr.name(), "ignored");
            assert_eq!(isr.id(), 33);
            assert_eq!(isr.privilege(), None);
            assert!(isr.calling_func().is_none());
        }
        other => panic!("unexpected {:?}", other),
    }
}

#[test]
fn only_externs() {
    let ast = parse("extern a(i64 x, u16 y) extern b(u32 z) WithLevel(Super) ").unwrap();
    let items = ast.as_vec();
    assert_eq!(items.len(), 2);
    match &items[0] {
        Ingot::ExternalFunction(f) => {
            assert_eq!(f.name(), "a");
            let args = f.args();
            assert_eq!(args.len(), 2);
            assert_eq!((args[0].name(), args[0].type_t()), ("x", FuncArgType::I64));
            assert_eq!((args[1].name(), args[1].type_t()), ("y", FuncArgType::U16));
            assert_eq!(f.privilege(), None);
        }
        other => panic!("unexpected {:?}", other),
    }
    match &items[1] {
        Ingot::ExternalFunction(f) => {
            assert_eq!(f.name(), "b");
            assert_eq!(f.args().len(), 1);
            assert_eq!(f.privilege(), Some(Ring::Super));
        }
        other => panic!("unexpected {:?}", other),
    }
}

#[test]
fn only_isrs() {
    let ast = parse("isr one(0) { } isr two(255) WithLevel(Super) { call f($, $) } ").unwrap();
    let items = ast.as_vec();
    assert_eq!(items.len(), 2);
    match &items[1] {
        Ingot::Isr(isr) => {
            assert_eq!(isr.name(), "two");
            assert_eq!(isr.id(), 255);
            assert_eq!(isr.privilege(), Some(Ring::Super));
            let call = isr.calling_func().as_ref().unwrap();
            assert_eq!(call.name(), "f");
            assert_eq!(call.args().len(), 2);
        }
        other => panic!("unexpected {:?}", other),
    }
}

#[test]
fn empty_token_stream_gives_empty_tree() {
    let ast = Parser::new(VecDeque::new()).run().unwrap();
    assert_eq!(ast.as_vec().len(), 0);
}

#[test]
fn call_arguments_after_a_comma_may_be_names() {
    let ast = parse("isr i(1) { call f($, x) } ").unwrap();
    match &ast.as_vec()[0] {
        Ingot::Isr(isr) => {
            let call = isr.calling_func().as_ref().unwrap();
            assert!(matches!(&call.args()[1], CallArg::Var(v) if v == "x"));
        }
        other => panic!("unexpected {:?}", other),
    }
}

#[test]
fn function_arguments_tolerate_extra_commas() {
    let ast = parse("extern f(u8, a,, i8 b,) ").unwrap();
    match &ast.as_vec()[0] {
        Ingot::ExternalFunction(f) => {
            assert_eq!(f.args().len(), 2);
            assert_eq!(f.args()[1].type_t(), FuncArgType::I8);
        }
        other => panic!("unexpected {:?}", other),
    }
}

#[test]
fn argument_list_may_end_at_eof() {
    let ast = Parser::new(tokens("extern f(u8 a ")).run().unwrap();
    assert_eq!(ast.as_vec().len(), 1);
}

#[test]
fn ingot_must_start_with_keyword() {
    assert_eq!(
        parse_err("foo "),
        (1, 5, "Expected the start of an Ingot, got Token::Identifier(foo)".to_string())
    );
}

#[test]
fn extern_errors() {
    assert_eq!(
        parse_err("extern ("),
        (1, 9, "Expected function name after extern declaration, found: Token::LeftParen".to_string())
    );
    assert_eq!(
        parse_err("extern f "),
        (1, 10, "Expected '(' after extern declaration, found EOF".to_string())
    );
    assert_eq!(
        parse_err("extern f { "),
        (1, 11, "Expected '(' after extern declaration, found: Token::LeftBracket".to_string())
    );
    assert_eq!(
        parse_err("extern "),
        (1, 8, "Expected function name after extern declaration, found EOF".to_string())
    );
}

#[test]
fn func_arg_errors() {
    assert_eq!(
        parse_err("extern f(u8) "),
        (1, 13, "Expected arg name for function argument, found ')'".to_string())
    );
    assert_eq!(parse_err("extern f(float x) "), (1, 16, "Invalid c type: float".to_string()));
    assert_eq!(parse_err("extern f(,) "), (1, 11, "Expected ')' or fun arg, got ','".to_string()));
    assert_eq!(
        parse_err("extern f($) "),
        (1, 11, "Unexpected token while parsing func_args: Token::Dollar".to_string())
    );
}

#[test]
fn withlevel_errors() {
    assert_eq!(
        parse_err("extern f() WithLevel "),
        (1, 22, "Expected '(' after WithLevel, found EOF".to_string())
    );
    assert_eq!(
        parse_err("extern f() WithLevel ( "),
        (1, 23, "Expected privilege level, found EOF".to_string())
    );
    assert_eq!(
        parse_err("extern f() WithLevel(x) "),
        (1, 24, "Expected privilege level, found: Token::Identifier(x)".to_string())
    );
    assert_eq!(
        parse_err("extern f() WithLevel(User "),
        (1, 27, "Expected ')' after privilege level, found EOF".to_string())
    );
    assert_eq!(
        parse_err("extern f() WithLevel(User,"),
        (1, 27, "Expected ')' after privilege level, found Token::Comma".to_string())
    );
    assert_eq!(
        parse_err("extern f() WithLevel{"),
        (1, 22, "Expected '(' after WithLevel, found: Token::LeftBracket".to_string())
    );
}

#[test]
fn isr_errors() {
    assert_eq!(parse_err("isr "), (1, 5, "Expected ISR name, found EOF".to_string()));
    assert_eq!(parse_err("isr $"), (1, 6, "Expected ISR name, found: Token::Dollar".to_string()));
    assert_eq!(parse_err("isr a "), (1, 7, "Expected '(' after Isr name, found EOF".to_string()));
    assert_eq!(
        parse_err("isr a {"),
        (1, 8, "Expected '(' after Isr name, found: Token::LeftBracket".to_string())
    );
    assert_eq!(parse_err("isr a("), (1, 7, "Expected an Isr number, found EOF".to_string()));
    assert_eq!(parse_err("isr a($"), (1, 8, "Expected an Isr number, found: Token::Dollar".to_string()));
    assert_eq!(
        parse_err("isr a(256)"),
        (1, 11, "Expected numeric value, failed with: number too large to fit in target type".to_string())
    );
    assert_eq!(
        parse_err("isr a(1x)"),
        (1, 10, "Expected numeric value, failed with: invalid digit found in string".to_string())
    );
    assert_eq!(parse_err("isr a(12 "), (1, 10, "Expected closing ')', found EOF".to_string()));
    assert_eq!(
        parse_err("isr a(12 ,"),
        (1, 11, "Expected closing ')', found: Token::Comma".to_string())
    );
}

#[test]
fn isr_body_errors() {
    assert_eq!(parse_err("isr a(1)"), (1, 9, "Expected opening '{', found EOF".to_string()));
    assert_eq!(
        parse_err("isr a(1)("),
        (1, 10, "Expected opening '{', found: Token::LeftParen".to_string())
    );
    assert_eq!(
        parse_err("isr a(1){"),
        (1, 10, "Expected call expression or closing '}', found EOF".to_string())
    );
    assert_eq!(
        parse_err("isr a(1){$"),
        (1, 11, "Expected call expression or closing '}', found: Token::Dollar".to_string())
    );
}

#[test]
fn call_errors() {
    assert_eq!(parse_err("isr a(1){call "), (1, 15, "Expected function name, found EOF".to_string()));
    assert_eq!(
        parse_err("isr a(1){call $"),
        (1, 16, "Expected function name, found: Token::Dollar".to_string())
    );
    assert_eq!(parse_err("isr a(1){call f "), (1, 17, "Expected '(', found EOF".to_string()));
    assert_eq!(parse_err("isr a(1){call f{"), (1, 17, "Expected '(', found: Token::LeftBracket".to_string()));
    assert_eq!(parse_err("isr a(1){call f($,)"), (1, 20, "Expected argument, found ')'".to_string()));
    assert_eq!(
        parse_err("isr a(1){call f(x)"),
        (1, 19, "Unexpected token in call expression: Token::Identifier(x)".to_string())
    );
    assert_eq!(
        parse_err("isr a(1){call f($ $)"),
        (1, 20, "Unexpected token in call expression: Token::Dollar".to_string())
    );
    assert_eq!(parse_err("isr a(1){call f($)"), (1, 17, "Expected '}', found EOF".to_string()));
    assert_eq!(parse_err("isr a(1){call f($))"), (1, 20, "Expected '}', found: Token::RightParen".to_string()));
}

#[test]
fn parse_ingot_steps_one_item_at_a_time() {
    let mut parser = Parser::new(tokens("extern f() isr i(1) { } "));
    assert_eq!(parser.tokens().len(), 11);
    assert!(matches!(parser.parse_ingot(), Some(Ok(Ingot::ExternalFunction(_)))));
    assert!(matches!(parser.tokens()[0].borrow_token(), Token::KeywordIsr));
    assert!(matches!(parser.parse_ingot(), Some(Ok(Ingot::Isr(_)))));
    assert!(parser.parse_ingot().is_none());
}

#[test]
fn final_name_without_delimiter_is_read() {
    let ast = parse("extern f() isr i(1) { call f() }").unwrap();
    assert_eq!(ast.as_vec().len(), 2);
    let ast = parse("extern f(u8 a").unwrap();
    match &ast.as_vec()[0] {
        Ingot::ExternalFunction(f) => assert_eq!(f.args()[0].name(), "a"),
        other => panic!("unexpected {:?}", other),
    }
}

#[test]
fn hand_built_tokens_parse() {
    let mut q = VecDeque::new();
    q.push_back(TokenInfo::new(Token::KeywordIsr, 5, 1));
    q.push_back(TokenInfo::new(Token::Identifier("n".to_string()), 5, 2));
    q.push_back(TokenInfo::new(Token::LeftParen, 5, 3));
    q.push_back(TokenInfo::new(Token::Identifier("+7".to_string()), 5, 4));
    q.push_back(TokenInfo::new(Token::RightParen, 5, 5));
    q.push_back(TokenInfo::new(Token::LeftBracket, 5, 6));
    q.push_back(TokenInfo::new(Token::RightBracket, 5, 7));
    let ast = Parser::new(q).run().unwrap();
    match &ast.as_vec()[0] {
        Ingot::Isr(isr) => assert_eq!(isr.id(), 7),
        other => panic!("unexpected {:?}", other),
    }
}
