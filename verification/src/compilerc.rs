//! The C back end: the declarations of the external functions that a file
//! names, placed into the C template of its ISR registration routine.

use vstd::prelude::*;

use crate::ast::{
    func_arg_models, ingot_models, Ast, ExternFnModel, ExternalFunctionNode, FuncArgModel,
    FuncArgType, Ingot, IngotModel,
};
use crate::grammar::c_type;
use crate::text::{lemma_replace_all_laws, pattern_at, replace_all, replace_str};

verus! {

/// The declaration of one external function, before its name and its
/// arguments are filled in.
pub const EXTERN_FUNC_TEMPLATE: &'static str = "extern void {func_name}({func_args});\n";

/// The definition of one ISR, before its number and body are filled in.
pub const ISR_FUNC_TEMPLATE: &'static str = "void AnilloISR{isr_id}() {\n    {body}\n}";

/// The entry of one ISR in the interrupt descriptor table, before its number
/// and privilege bits are filled in.
pub const GATE_DESCRIPTOR_TEMPLATE: &'static str = "idt[{isr_id}] = (struct AnilloGateDescriptor) {\n    .addr_l = ((u32) AnilloISR{isr_id} & 0xF),\n    .segment = 0x8,\n    .attributes = 0b1{privilege_bits}01110,\n    .addr_h = ((u32) AnilloISR{isr_id} >> 16)\n};";

/// The header that declares the registration routine.
pub const HEADER_TEXT: &'static str = "void AnilloISRRegister();";

/// The C name of an argument type.
pub open spec fn c_type_text(t: FuncArgType) -> Seq<char> {
    match t {
        FuncArgType::U8 => "u8"@,
        FuncArgType::U16 => "u16"@,
        FuncArgType::U32 => "u32"@,
        FuncArgType::U64 => "u64"@,
        FuncArgType::I8 => "i8"@,
        FuncArgType::I16 => "i16"@,
        FuncArgType::I32 => "i32"@,
        FuncArgType::I64 => "i64"@,
    }
}

/// One C parameter: its type, a space, its name.
pub open spec fn param_text(a: FuncArgModel) -> Seq<char> {
    c_type_text(a.type_t) + " "@ + a.name
}

/// The C parameter list of an external function: its parameters, separated
/// by ", ".
pub open spec fn params_text(args: Seq<FuncArgModel>) -> Seq<char>
    decreases args.len(),
{
    if args.len() == 0 {
        seq![]
    } else if args.len() == 1 {
        param_text(args[0])
    } else {
        params_text(args.drop_last()) + ", "@ + param_text(args.last())
    }
}

/// The C declaration of an external function: the template with its name
/// filled in, then its parameter list.
pub open spec fn extern_decl_text(f: ExternFnModel) -> Seq<char> {
    replace_all(
        replace_all(EXTERN_FUNC_TEMPLATE@, "{func_name}"@, f.name),
        "{func_args}"@,
        params_text(f.args),
    )
}

/// The C declarations of the external functions among `ingots`, in order.
pub open spec fn extern_decls_text(ingots: Seq<IngotModel>) -> Seq<char>
    decreases ingots.len(),
{
    if ingots.len() == 0 {
        seq![]
    } else {
        let before = extern_decls_text(ingots.drop_last());
        match ingots.last() {
            IngotModel::ExternalFunction(f) => before + extern_decl_text(f),
            IngotModel::Isr(_) => before,
        }
    }
}

/// The C file: the template with the file name, the external declarations,
/// and (so far empty) ISR definitions and gate descriptors filled in.
pub open spec fn cfile_text(template: Seq<char>, filename: Seq<char>, ingots: Seq<IngotModel>) -> Seq<
    char,
> {
    replace_all(
        replace_all(
            replace_all(
                replace_all(template, "{filename}"@, filename),
                "{external_funcs}"@,
                extern_decls_text(ingots),
            ),
            "{isr_funcs}"@,
            seq![],
        ),
        "{gate_descriptors}"@,
        seq![],
    )
}

/// The parser and the back end agree on type names: a type name that the
/// parser reads is rendered back as that same name, and the name rendered
/// for any type is read back as that type. Each of the eight C names stands
/// for the type of the same name.
pub proof fn lemma_type_names_round_trip(s: Seq<char>, t: FuncArgType)
    ensures
        c_type(s) matches Some(u) ==> c_type_text(u) == s,
        c_type(c_type_text(t)) == Some(t),
        c_type("u8"@) == Some(FuncArgType::U8),
        c_type("i8"@) == Some(FuncArgType::I8),
        c_type("u16"@) == Some(FuncArgType::U16),
        c_type("i16"@) == Some(FuncArgType::I16),
        c_type("u32"@) == Some(FuncArgType::U32),
        c_type("i32"@) == Some(FuncArgType::I32),
        c_type("u64"@) == Some(FuncArgType::U64),
        c_type("i64"@) == Some(FuncArgType::I64),
{
    reveal_strlit("u8");
    reveal_strlit("i8");
    reveal_strlit("u16");
    reveal_strlit("i16");
    reveal_strlit("u32");
    reveal_strlit("i32");
    reveal_strlit("u64");
    reveal_strlit("i64");
    assert("u8"@[0] == 'u' && "u8"@[1] == '8');
    assert("i8"@[0] == 'i' && "i8"@[1] == '8');
    assert("u16"@[0] == 'u' && "u16"@[1] == '1');
    assert("i16"@[0] == 'i' && "i16"@[1] == '1');
    assert("u32"@[0] == 'u' && "u32"@[1] == '3');
    assert("i32"@[0] == 'i' && "i32"@[1] == '3');
    assert("u64"@[0] == 'u' && "u64"@[1] == '6');
    assert("i64"@[0] == 'i' && "i64"@[1] == '6');
}

proof fn lemma_params_push(s: Seq<FuncArgModel>, a: FuncArgModel)
    requires
        s.len() > 0,
    ensures
        params_text(s.push(a)) == params_text(s) + ", "@ + param_text(a),
{
    assert(s.push(a).drop_last() =~= s);
}

/// A parameter list is its parameters joined by ", ": the list of two
/// non-empty argument sequences put together is the first list, ", ", then
/// the second; one argument gives its C type name, a space and its name;
/// none gives nothing.
pub proof fn lemma_params_join(s: Seq<FuncArgModel>, t: Seq<FuncArgModel>)
    ensures
        params_text(Seq::empty()) == Seq::<char>::empty(),
        t.len() == 1 ==> params_text(t) == c_type_text(t[0].type_t) + " "@ + t[0].name,
        s.len() > 0 && t.len() > 0 ==> params_text(s + t) == params_text(s) + ", "@ + params_text(
            t,
        ),
    decreases t.len(),
{
    if s.len() > 0 && t.len() > 0 {
        if t.len() == 1 {
            assert(s + t =~= s.push(t[0]));
            lemma_params_push(s, t[0]);
        } else {
            let t0 = t.drop_last();
            lemma_params_join(s, t0);
            assert(s + t =~= (s + t0).push(t.last()));
            lemma_params_push(s + t0, t.last());
            lemma_params_push(t0, t.last());
            assert(t =~= t0.push(t.last()));
        }
    }
}

/// Every external function of a file gets exactly one declaration, whatever
/// its privilege or arguments, and the declarations follow the source order:
/// the declarations of two item sequences put together are those of the
/// first, then those of the second; an ISR gives none.
pub proof fn lemma_extern_decls_concat(a: Seq<IngotModel>, b: Seq<IngotModel>)
    ensures
        extern_decls_text(a + b) == extern_decls_text(a) + extern_decls_text(b),
        forall|f: ExternFnModel| #[trigger]
            extern_decls_text(seq![IngotModel::ExternalFunction(f)]) == extern_decl_text(f),
        forall|i: crate::ast::IsrModel| #[trigger]
            extern_decls_text(seq![IngotModel::Isr(i)]) == Seq::<char>::empty(),
    decreases b.len(),
{
    assert forall|f: ExternFnModel| #[trigger]
        extern_decls_text(seq![IngotModel::ExternalFunction(f)]) == extern_decl_text(f) by {
        let one = seq![IngotModel::ExternalFunction(f)];
        assert(one.drop_last() =~= Seq::<IngotModel>::empty());
        assert(one.last() == IngotModel::ExternalFunction(f));
        assert(extern_decls_text(Seq::<IngotModel>::empty()) == Seq::<char>::empty());
        assert(Seq::<char>::empty() + extern_decl_text(f) =~= extern_decl_text(f));
    }
    assert forall|i: crate::ast::IsrModel| #[trigger]
        extern_decls_text(seq![IngotModel::Isr(i)]) == Seq::<char>::empty() by {
        let one = seq![IngotModel::Isr(i)];
        assert(one.drop_last() =~= Seq::<IngotModel>::empty());
        assert(one.last() == IngotModel::Isr(i));
        assert(extern_decls_text(Seq::<IngotModel>::empty()) == Seq::<char>::empty());
    }
    if b.len() == 0 {
        assert(a + b =~= a);
        assert(extern_decls_text(a) + Seq::<char>::empty() =~= extern_decls_text(a));
    } else {
        let b0 = b.drop_last();
        lemma_extern_decls_concat(a, b0);
        assert((a + b).drop_last() =~= a + b0);
        assert((a + b).last() == b.last());
        match b.last() {
            IngotModel::ExternalFunction(f) => {
                assert(extern_decls_text(a) + extern_decls_text(b0) + extern_decl_text(f)
                    =~= extern_decls_text(a) + (extern_decls_text(b0) + extern_decl_text(f)));
            },
            IngotModel::Isr(_) => {},
        }
    }
}

/// The declaration of an external function whose name holds no '{' is
/// `extern void <name>(<parameters>);` and a line feed.
pub proof fn lemma_extern_decl_shape(f: ExternFnModel)
    requires
        forall|i: int| 0 <= i < f.name.len() ==> #[trigger] f.name[i] != '{',
    ensures
        extern_decl_text(f) == "extern void "@ + f.name + "("@ + params_text(f.args) + ");\n"@,
{
    let n = "{func_name}"@;
    let a = "{func_args}"@;
    let head = "extern void "@;
    let open = "("@;
    let tail = ");\n"@;
    reveal_strlit("extern void {func_name}({func_args});\n");
    reveal_strlit("{func_name}");
    reveal_strlit("{func_args}");
    reveal_strlit("extern void ");
    reveal_strlit("(");
    reveal_strlit(");\n");
    let r1 = open + (a + tail);
    assert(EXTERN_FUNC_TEMPLATE@ =~= head + (n + r1));
    assert forall|i: int| 0 <= i < head.len() implies #[trigger] head[i] != n[0] by {}
    lemma_replace_all_laws(head, n + r1, n, f.name);
    lemma_replace_all_laws(head, r1, n, f.name);
    assert forall|i: int| !#[trigger] pattern_at(r1, i, n) by {
        if 0 <= i && i + n.len() <= r1.len() {
            if i == 1 {
                assert(r1.subrange(i, i + n.len())[6] != n[6]);
            } else {
                assert(r1.subrange(i, i + n.len())[0] != n[0]);
            }
        }
    }
    lemma_replace_all_laws(head, r1, n, f.name);
    let step1 = head + (f.name + r1);
    assert(replace_all(EXTERN_FUNC_TEMPLATE@, n, f.name) =~= step1);
    let front = head + f.name + open;
    assert(step1 =~= front + (a + tail));
    assert forall|i: int| 0 <= i < front.len() implies #[trigger] front[i] != a[0] by {
        if i >= head.len() && i < head.len() + f.name.len() {
            assert(front[i] == f.name[i - head.len()]);
        }
    }
    let params = params_text(f.args);
    lemma_replace_all_laws(front, a + tail, a, params);
    lemma_replace_all_laws(tail, tail, a, params);
    assert(replace_all(tail, a, params) == tail);
    assert(front + (params + tail) =~= head + f.name + open + params + tail);
}

/// Generates the C code that registers the ISRs of a checked file.
pub struct CompilerC<'a> {
    filename: String,
    ast: &'a Ast,
}

impl<'a> CompilerC<'a> {
    /// The base name of the files to write.
    pub closed spec fn filename_model(&self) -> Seq<char> {
        self.filename@
    }

    /// The items of the file to compile.
    pub closed spec fn items(&self) -> Seq<IngotModel> {
        self.ast@
    }

    pub fn new(filename_in: String, ast: &'a Ast) -> (r: CompilerC<'a>)
        ensures
            r.filename_model() == filename_in@,
            r.items() == ast@,
    {
        CompilerC { filename: filename_in, ast: ast }
    }

    /// The base name of the files to write (`.c` and `.h` are appended).
    pub fn filename(&self) -> (r: &str)
        ensures
            r@ == self.filename_model(),
    {
        self.filename.as_str()
    }

    /// The contents of the header file.
    pub fn gen_hfile(&self) -> (r: String)
        ensures
            r@ == HEADER_TEXT@,
    {
        String::from_str(HEADER_TEXT)
    }

    /// The C declarations of all external functions, in source order.
    pub fn gen_extern_funcs(&self) -> (r: String)
        ensures
            r@ == extern_decls_text(self.items()),
    {
        let items: &Vec<Ingot> = self.ast.as_vec();
        let n: usize = items.len();
        let mut out_string = String::new();
        let mut i: usize = 0;
        assert(self.items().take(0) =~= Seq::<IngotModel>::empty());
        while i < n
            invariant
                n == items@.len(),
                0 <= i <= n,
                ingot_models(items@) == self.items(),
                out_string@ == extern_decls_text(self.items().take(i as int)),
            decreases n - i,
        {
            assert(self.items().take(i + 1).drop_last() =~= self.items().take(i as int));
            assert(self.items().take(i + 1).last() == items@[i as int]@);
            if let Ingot::ExternalFunction(ef_node) = &items[i] {
                proof {
                    reveal_strlit("{func_name}");
                    reveal_strlit("{func_args}");
                }
                let named = replace_str(EXTERN_FUNC_TEMPLATE, "{func_name}", ef_node.name());
                let params = self.gen_func_args(ef_node);
                let decl = replace_str(named.as_str(), "{func_args}", params.as_str());
                out_string.append(decl.as_str());
            }
            i = i + 1;
        }
        assert(self.items().take(n as int) =~= self.items());
        out_string
    }

    /// The C parameter list of an external function.
    pub fn gen_func_args(&self, ef_node: &ExternalFunctionNode) -> (r: String)
        ensures
            r@ == params_text(ef_node@.args),
    {
        let args = ef_node.args();
        let n: usize = args.len();
        let mut out_string = String::new();
        let mut first: bool = true;
        let mut i: usize = 0;
        assert(func_arg_models(args@).take(0) =~= Seq::<FuncArgModel>::empty());
        while i < n
            invariant
                n == args@.len(),
                0 <= i <= n,
                func_arg_models(args@) == ef_node@.args,
                first == (i == 0),
                out_string@ == params_text(func_arg_models(args@).take(i as int)),
            decreases n - i,
        {
            let ghost ms = func_arg_models(args@);
            assert(ms.take(i + 1).drop_last() =~= ms.take(i as int));
            assert(ms.take(i + 1).last() == args@[i as int]@);
            if !first {
                out_string.append(", ");
            } else {
                first = false;
            }
            let arg = &args[i];
            let ctype = match arg.type_t() {
                FuncArgType::U8 => "u8",
                FuncArgType::U16 => "u16",
                FuncArgType::U32 => "u32",
                FuncArgType::U64 => "u64",
                FuncArgType::I8 => "i8",
                FuncArgType::I16 => "i16",
                FuncArgType::I32 => "i32",
                FuncArgType::I64 => "i64",
            };
            out_string.append(ctype);
            out_string.append(" ");
            out_string.append(arg.name());
            i = i + 1;
        }
        assert(func_arg_models(args@).take(n as int) =~= func_arg_models(args@));
        out_string
    }

    /// The C definitions of the ISRs: none are generated yet.
    pub fn gen_isr_funcs(&self) -> (r: String)
        ensures
            r@ == Seq::<char>::empty(),
    {
        String::new()
    }

    /// The interrupt descriptor table entries: none are generated yet.
    pub fn gen_gate_descriptors(&self) -> (r: String)
        ensures
            r@ == Seq::<char>::empty(),
    {
        String::new()
    }

    /// The C file, from its template: `{filename}`, `{external_funcs}`,
    /// `{isr_funcs}` and `{gate_descriptors}` are replaced, in that order.
    pub fn gen_cfile(&self, template: &str) -> (r: String)
        ensures
            r@ == cfile_text(template@, self.filename_model(), self.items()),
    {
        proof {
            reveal_strlit("{filename}");
            reveal_strlit("{external_funcs}");
            reveal_strlit("{isr_funcs}");
            reveal_strlit("{gate_descriptors}");
        }
        let externs = self.gen_extern_funcs();
        let isrs = self.gen_isr_funcs();
        let gates = self.gen_gate_descriptors();
        let a = replace_str(template, "{filename}", self.filename.as_str());
        let b = replace_str(a.as_str(), "{external_funcs}", externs.as_str());
        let c = replace_str(b.as_str(), "{isr_funcs}", isrs.as_str());
        replace_str(c.as_str(), "{gate_descriptors}", gates.as_str())
    }
}

} // verus!
