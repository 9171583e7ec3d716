use anillo::{Ast, CompilationError, Lexer, Parser};

fn ast(src: &str) -> Ast {
    let tokens = Lexer::new(src.as_bytes().to_vec()).tokenize().unwrap();
    Parser::new(tokens).run().unwrap()
}

fn check(src: &str) -> (Vec<String>, Result<(), CompilationError>) {
    let mut warnings = Vec::new();
    let r = ast(src).verify(&mut warnings);
    (warnings, r)
}

fn check_err(src: &str) -> (Vec<String>, String) {
    let (w, r) = check(src);
    let e = r.unwrap_err();
    assert!(!e.src_available());
    assert_eq!((e.line(), e.column()), (0, 0));
    (w, e.diagnostic().to_string())
}

#[test]
fn accepted_file_with_warnings_in_order() {
    let (w, r) = check(
        "extern two(u8 a, u16 b) \
         isr quiet(3) { } \
         isr loud(4) { call two($, $) } ",
    );
    assert!(r.is_ok());
    assert_eq!(
        w,
        vec![
            "Warning(Definition): Multiple args in external functions not yet supported",
            "Function: two",
            "Warning: Found ISR with no external function call.",
            "This will generate code that effectively ignores this interrupt.",
            "Warning(Callsite): Multiple args in external functions not yet supported",
            "Function: two",
        ]
    );
}

#[test]
fn empty_file_is_accepted() {
    let (w, r) = check("");
    assert!(r.is_ok());
    assert!(w.is_empty());
}

#[test]
fn undefined_function_is_an_error() {
    let (w, d) = check_err("isr i(1) { call g() } ");
    assert!(w.is_empty());
    assert_eq!(d, "Attempt to call an undefined function: g from isr i");
}

#[test]
fn ambiguous_function_is_an_error() {
    let (_, d) = check_err("extern f() extern f() isr i(1) { call f() } ");
    assert_eq!(d, "Attempt to call ambiguous function: f from isr i (Did you accidentally define f twice?)");
}

#[test]
fn argument_count_mismatch_is_an_error() {
    let (_, d) = check_err("extern f(u8 a) isr i(7) { call f() } ");
    assert_eq!(d, "Mismatched arg count between definition and usage of f within isr i(7)");
}

#[test]
fn dollar_is_not_an_i8() {
    let (_, d) = check_err("extern f(i8 a) isr i(7) { call f($) } ");
    assert_eq!(d, "At callsite of f in isr i(i): '$' (AKA U8) not safely convertable to I8");
}

#[test]
fn variables_are_not_supported() {
    let (w, d) = check_err("extern f(u8 a, u8 b) isr i(7) { call f($, x) } ");
    assert_eq!(d, "At callsite of f in isr i7: arbitrary variable expressions (x) not yet supported");
    // The warnings found before the error are kept.
    assert_eq!(w.len(), 4);
    assert_eq!(w[2], "Warning(Callsite): Multiple args in external functions not yet supported");
}

#[test]
fn user_isr_cannot_call_super_function() {
    let (_, d) = check_err("extern f() isr i(1) WithLevel(User) { call f() } ");
    assert_eq!(d, "Attempt to call higher privilege function (f) from lower privilege ISR (i)");
    let (_, d) = check_err("extern f() WithLevel(Super) isr i(1) WithLevel(User) { call f() } ");
    assert_eq!(d, "Attempt to call higher privilege function (f) from lower privilege ISR (i)");
}

#[test]
fn allowed_privileges() {
    assert!(check("extern f() WithLevel(User) isr i(1) WithLevel(User) { call f() } ").1.is_ok());
    assert!(check("extern f() WithLevel(User) isr i(1) { call f() } ").1.is_ok());
    assert!(check("extern f() isr i(1) { call f() } ").1.is_ok());
    assert!(check("extern f() isr i(1) WithLevel(Super) { call f() } ").1.is_ok());
}

#[test]
fn first_error_stops_the_checks() {
    let (w, d) = check_err("isr a(1) { call x() } isr b(2) { } ");
    assert_eq!(d, "Attempt to call an undefined function: x from isr a");
    assert!(w.is_empty());
}

#[test]
fn error_renderings() {
    let (_, r) = check("isr a(1) { call x() } ");
    let e = r.unwrap_err();
    assert_eq!(
        e.to_display_string(),
        "CompilationError: {line = 0, column = 0, diagnostic = Attempt to call an undefined function: x from isr a}"
    );
    assert_eq!(
        e.to_debug_string(),
        "CompilationError: {line = 0, column = 0, diagnostic = Attempt to call an undefined function: x from isr a}\n(Source info unavaliable)"
    );
    let e = CompilationError::new(12, 345, "oops".to_string());
    assert_eq!(e.to_debug_string(), "CompilationError: {line = 12, column = 345, diagnostic = oops}");
}
