use anillo::{Ast, CompilerC, ExternalFunctionNode, FuncArg, FuncArgType, Ingot, IsrNode, Lexer, Parser};

fn ast(src: &str) -> Ast {
    let tokens = Lexer::new(src.as_bytes().to_vec()).tokenize().unwrap();
    Parser::new(tokens).run().unwrap()
}

#[test]
fn function_arguments_are_joined_by_commas() {
    let f = ExternalFunctionNode::new(
        "f".to_string(),
        vec![FuncArg::new("a".to_string(), FuncArgType::U8), FuncArg::new("b".to_string(), FuncArgType::I64)],
        None,
    );
    let tree = Ast::new(vec![]);
    let c = CompilerC::new("out".to_string(), &tree);
    assert_eq!(c.gen_func_args(&f), "u8 a, i64 b");
    let none = ExternalFunctionNode::new("g".to_string(), vec![], None);
    assert_eq!(c.gen_func_args(&none), "");
}

#[test]
fn extern_declarations_in_source_order() {
    let tree = ast("extern f(u32 x, i16 y) isr i(1) { } extern g() ");
    let c = CompilerC::new("out".to_string(), &tree);
    assert_eq!(c.gen_extern_funcs(), "extern void f(u32 x, i16 y);\nextern void g();\n");
    assert_eq!(c.gen_isr_funcs(), "");
    assert_eq!(c.gen_gate_descriptors(), "");
    assert_eq!(c.filename(), "out");
    assert_eq!(c.gen_hfile(), "void AnilloISRRegister();");
}

#[test]
fn c_file_from_template() {
    let tree = ast("extern f(u8 v) ");
    let c = CompilerC::new("irq".to_string(), &tree);
    let template = "/* {filename}.c */\n{external_funcs}{isr_funcs}void AnilloISRRegister() {\n{gate_descriptors}}\n/* {filename} */";
    assert_eq!(
        c.gen_cfile(template),
        "/* irq.c */\nextern void f(u8 v);\nvoid AnilloISRRegister() {\n}\n/* irq */"
    );
}

#[test]
fn placeholders_in_names_are_replaced_in_turn() {
    let f = ExternalFunctionNode::new("x{func_args}".to_string(), vec![FuncArg::new("a".to_string(), FuncArgType::U8)], None);
    let tree = Ast::new(vec![Ingot::ExternalFunction(f), Ingot::Isr(IsrNode::new("i".to_string(), 1, None, None))]);
    let c = CompilerC::new("out".to_string(), &tree);
    assert_eq!(c.gen_extern_funcs(), "extern void xu8 a(u8 a);\n");
}
