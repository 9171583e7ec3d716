//! The abstract syntax tree of an Anillo file, and the checks that a tree
//! must pass before code is generated from it.

use vstd::prelude::*;

use crate::error::{error_without_src, CompilationError, ErrorModel};
use crate::ring::{rank, Ring};
use crate::text::{decimal, push_decimal};

verus! {

/// The C integer types that an external function's argument may have.
#[derive(Debug, Clone, Copy, PartialEq, Eq, Structural)]
pub enum FuncArgType {
    U8,
    I8,
    U16,
    I16,
    U32,
    I32,
    U64,
    I64,
}

/// An argument of an external function, as plain values.
pub struct FuncArgModel {
    pub name: Seq<char>,
    pub type_t: FuncArgType,
}

/// An external function declaration, as plain values.
pub struct ExternFnModel {
    pub name: Seq<char>,
    pub args: Seq<FuncArgModel>,
    pub privilege: Option<Ring>,
}

/// An argument at a call site, as a plain value.
pub enum CallArgModel {
    Var(Seq<char>),
    Dollar,
}

/// A call of an external function, as plain values.
pub struct CallModel {
    pub name: Seq<char>,
    pub args: Seq<CallArgModel>,
}

/// An interrupt service routine, as plain values.
pub struct IsrModel {
    pub name: Seq<char>,
    pub id: u8,
    pub privilege: Option<Ring>,
    pub calling_func: Option<CallModel>,
}

/// A top-level item, as a plain value.
pub enum IngotModel {
    ExternalFunction(ExternFnModel),
    Isr(IsrModel),
}

#[derive(Debug)]
pub struct FuncArg {
    _name: String,
    type_t: FuncArgType,
}

impl View for FuncArg {
    type V = FuncArgModel;

    closed spec fn view(&self) -> FuncArgModel {
        FuncArgModel { name: self._name@, type_t: self.type_t }
    }
}

/// The models of a sequence of function arguments.
pub open spec fn func_arg_models(v: Seq<FuncArg>) -> Seq<FuncArgModel> {
    v.map_values(|a: FuncArg| a@)
}

impl FuncArg {
    pub fn new(name: String, type_t: FuncArgType) -> (r: FuncArg)
        ensures
            r@ == (FuncArgModel { name: name@, type_t }),
    {
        FuncArg { _name: name, type_t }
    }

    pub fn name(&self) -> (r: &str)
        ensures
            r@ == self@.name,
    {
        self._name.as_str()
    }

    pub fn type_t(&self) -> (r: FuncArgType)
        ensures
            r == self@.type_t,
    {
        self.type_t
    }
}

#[derive(Debug)]
pub struct ExternalFunctionNode {
    name: String,
    args: Vec<FuncArg>,
    privilege: Option<Ring>,
}

impl View for ExternalFunctionNode {
    type V = ExternFnModel;

    closed spec fn view(&self) -> ExternFnModel {
        ExternFnModel {
            name: self.name@,
            args: func_arg_models(self.args@),
            privilege: self.privilege,
        }
    }
}

impl ExternalFunctionNode {
    pub fn new(name: String, args: Vec<FuncArg>, privilege: Option<Ring>) -> (r:
        ExternalFunctionNode)
        ensures
            r@ == (ExternFnModel { name: name@, args: func_arg_models(args@), privilege }),
    {
        ExternalFunctionNode { name, args, privilege }
    }

    pub fn name(&self) -> (r: &str)
        ensures
            r@ == self@.name,
    {
        self.name.as_str()
    }

    pub fn args(&self) -> (r: &Vec<FuncArg>)
        ensures
            func_arg_models(r@) == self@.args,
    {
        &self.args
    }

    pub fn privilege(&self) -> (r: Option<Ring>)
        ensures
            r == self@.privilege,
    {
        self.privilege
    }
}

#[derive(Debug)]
pub enum CallArg {
    Var(String),
    Dollar,
}

impl View for CallArg {
    type V = CallArgModel;

    open spec fn view(&self) -> CallArgModel {
        match self {
            CallArg::Var(v) => CallArgModel::Var(v@),
            CallArg::Dollar => CallArgModel::Dollar,
        }
    }
}

/// The models of a sequence of call arguments.
pub open spec fn call_arg_models(v: Seq<CallArg>) -> Seq<CallArgModel> {
    v.map_values(|a: CallArg| a@)
}

#[derive(Debug)]
pub struct ExternalFunctionCall {
    name: String,
    args: Vec<CallArg>,
}

impl View for ExternalFunctionCall {
    type V = CallModel;

    closed spec fn view(&self) -> CallModel {
        CallModel { name: self.name@, args: call_arg_models(self.args@) }
    }
}

impl ExternalFunctionCall {
    pub fn new(name: String, args: Vec<CallArg>) -> (r: ExternalFunctionCall)
        ensures
            r@ == (CallModel { name: name@, args: call_arg_models(args@) }),
    {
        ExternalFunctionCall { name, args }
    }

    pub fn name(&self) -> (r: &str)
        ensures
            r@ == self@.name,
    {
        self.name.as_str()
    }

    pub fn args(&self) -> (r: &Vec<CallArg>)
        ensures
            call_arg_models(r@) == self@.args,
    {
        &self.args
    }
}

/// The model of an optional call.
pub open spec fn call_option_model(c: Option<ExternalFunctionCall>) -> Option<CallModel> {
    match c {
        Some(c) => Some(c@),
        None => None,
    }
}

#[derive(Debug)]
pub struct IsrNode {
    name: String,
    id: u8,
    privilege: Option<Ring>,
    calling_func: Option<ExternalFunctionCall>,
}

impl View for IsrNode {
    type V = IsrModel;

    closed spec fn view(&self) -> IsrModel {
        IsrModel {
            name: self.name@,
            id: self.id,
            privilege: self.privilege,
            calling_func: call_option_model(self.calling_func),
        }
    }
}

impl IsrNode {
    pub fn new(
        name: String,
        id: u8,
        privilege: Option<Ring>,
        calling_func: Option<ExternalFunctionCall>,
    ) -> (r: IsrNode)
        ensures
            r@ == (IsrModel {
                name: name@,
                id,
                privilege,
                calling_func: call_option_model(calling_func),
            }),
    {
        IsrNode { name, id, privilege, calling_func }
    }

    pub fn name(&self) -> (r: &str)
        ensures
            r@ == self@.name,
    {
        self.name.as_str()
    }

    pub fn id(&self) -> (r: u8)
        ensures
            r == self@.id,
    {
        self.id
    }

    pub fn privilege(&self) -> (r: Option<Ring>)
        ensures
            r == self@.privilege,
    {
        self.privilege
    }

    pub fn calling_func(&self) -> (r: &Option<ExternalFunctionCall>)
        ensures
            call_option_model(*r) == self@.calling_func,
    {
        &self.calling_func
    }
}

#[derive(Debug)]
pub enum Ingot {
    ExternalFunction(ExternalFunctionNode),
    Isr(IsrNode),
}

impl View for Ingot {
    type V = IngotModel;

    open spec fn view(&self) -> IngotModel {
        match self {
            Ingot::ExternalFunction(f) => IngotModel::ExternalFunction(f@),
            Ingot::Isr(i) => IngotModel::Isr(i@),
        }
    }
}

/// The models of a sequence of ingots.
pub open spec fn ingot_models(v: Seq<Ingot>) -> Seq<IngotModel> {
    v.map_values(|i: Ingot| i@)
}

#[derive(Debug)]
pub struct Ast(Vec<Ingot>);

impl View for Ast {
    type V = Seq<IngotModel>;

    closed spec fn view(&self) -> Seq<IngotModel> {
        ingot_models(self.0@)
    }
}

impl Ast {
    pub fn new(vec: Vec<Ingot>) -> (r: Ast)
        ensures
            r@ == ingot_models(vec@),
    {
        Ast(vec)
    }

    /// The top-level items, in source order.
    pub fn as_vec(&self) -> (r: &Vec<Ingot>)
        ensures
            ingot_models(r@) == self@,
    {
        &self.0
    }
}


/// The level that a declared privilege stands for: none declared is the
/// more restrictive `Super`.
pub open spec fn level_of(p: Option<Ring>) -> Ring {
    match p {
        None => Ring::Super,
        Some(r) => r,
    }
}

/// The warnings for an external function with more than one argument.
pub open spec fn definition_warnings(f: ExternFnModel) -> Seq<Seq<char>> {
    if f.args.len() > 1 {
        seq![
            "Warning(Definition): Multiple args in external functions not yet supported"@,
            "Function: "@ + f.name,
        ]
    } else {
        seq![]
    }
}

/// The warnings for an ISR that calls nothing.
pub open spec fn empty_isr_warnings() -> Seq<Seq<char>> {
    seq![
        "Warning: Found ISR with no external function call."@,
        "This will generate code that effectively ignores this interrupt."@,
    ]
}

/// The warnings for a call of an external function with more than one
/// argument.
pub open spec fn callsite_warnings(f: ExternFnModel) -> Seq<Seq<char>> {
    if f.args.len() > 1 {
        seq![
            "Warning(Callsite): Multiple args in external functions not yet supported"@,
            "Function: "@ + f.name,
        ]
    } else {
        seq![]
    }
}

/// The external functions among `ingots` that are named `name`, in order.
pub open spec fn callees(ingots: Seq<IngotModel>, name: Seq<char>) -> Seq<ExternFnModel>
    decreases ingots.len(),
{
    if ingots.len() == 0 {
        seq![]
    } else {
        let found = callees(ingots.drop_last(), name);
        match ingots.last() {
            IngotModel::ExternalFunction(f) => if f.name == name {
                found.push(f)
            } else {
                found
            },
            IngotModel::Isr(_) => found,
        }
    }
}

/// The first argument, from position `i` on, that the call cannot pass to
/// the callee: `$` (an unsigned byte) for an `i8` parameter, or any
/// variable.
pub open spec fn argument_error(callee: ExternFnModel, isr: IsrModel, i: int) -> Option<
    ErrorModel,
>
    decreases isr.calling_func->0.args.len() - i,
{
    let args = isr.calling_func->0.args;
    if i < 0 || i >= args.len() || i >= callee.args.len() {
        None
    } else {
        match args[i] {
            CallArgModel::Dollar => if callee.args[i].type_t == FuncArgType::I8 {
                Some(
                    error_without_src(
                        "At callsite of "@ + callee.name + " in isr "@ + isr.name + "("@ + isr.name
                            + "): '$' (AKA U8) not safely convertable to I8"@,
                    ),
                )
            } else {
                argument_error(callee, isr, i + 1)
            },
            CallArgModel::Var(v) => Some(
                error_without_src(
                    "At callsite of "@ + callee.name + " in isr "@ + isr.name + decimal(
                        isr.id as nat,
                    ) + ": arbitrary variable expressions ("@ + v + ") not yet supported"@,
                ),
            ),
        }
    }
}

/// What checking one ISR against the file's `ingots` gives: the warnings,
/// then success or the error.
pub open spec fn check_isr(ingots: Seq<IngotModel>, isr: IsrModel) -> (
    Seq<Seq<char>>,
    Result<(), ErrorModel>,
) {
    match isr.calling_func {
        None => (empty_isr_warnings(), Ok(())),
        Some(call) => {
            let found = callees(ingots, call.name);
            if found.len() == 0 {
                (
                    seq![],
                    Err(
                        error_without_src(
                            "Attempt to call an undefined function: "@ + call.name + " from isr "@
                                + isr.name,
                        ),
                    ),
                )
            } else if found.len() > 1 {
                (
                    seq![],
                    Err(
                        error_without_src(
                            "Attempt to call ambiguous function: "@ + call.name + " from isr "@
                                + isr.name + " (Did you accidentally define "@ + call.name
                                + " twice?)"@,
                        ),
                    ),
                )
            } else {
                let callee = found[0];
                if callee.args.len() != call.args.len() {
                    (
                        seq![],
                        Err(
                            error_without_src(
                                "Mismatched arg count between definition and usage of "@
                                    + callee.name + " within isr "@ + isr.name + "("@ + decimal(
                                    isr.id as nat,
                                ) + ")"@,
                            ),
                        ),
                    )
                } else {
                    let w = callsite_warnings(callee);
                    match argument_error(callee, isr, 0) {
                        Some(e) => (w, Err(e)),
                        None => if level_of(isr.privilege) == Ring::User && level_of(
                            callee.privilege,
                        ) == Ring::Super {
                            (
                                w,
                                Err(
                                    error_without_src(
                                        "Attempt to call higher privilege function ("@
                                            + callee.name + ") from lower privilege ISR ("@
                                            + isr.name + ")"@,
                                    ),
                                ),
                            )
                        } else {
                            (w, Ok(()))
                        },
                    }
                }
            }
        },
    }
}

/// What checking the ingots from position `i` on gives: the warnings in
/// order, then success or the first error.
pub open spec fn check_from(ingots: Seq<IngotModel>, i: int) -> (
    Seq<Seq<char>>,
    Result<(), ErrorModel>,
)
    decreases ingots.len() - i,
{
    if i < 0 || i >= ingots.len() {
        (seq![], Ok(()))
    } else {
        match ingots[i] {
            IngotModel::ExternalFunction(f) => {
                let rest = check_from(ingots, i + 1);
                (definition_warnings(f) + rest.0, rest.1)
            },
            IngotModel::Isr(isr) => {
                let here = check_isr(ingots, isr);
                match here.1 {
                    Err(e) => (here.0, Err(e)),
                    Ok(()) => {
                        let rest = check_from(ingots, i + 1);
                        (here.0 + rest.0, rest.1)
                    },
                }
            },
        }
    }
}

/// The warnings that checking a file gives.
pub open spec fn ast_warnings(ingots: Seq<IngotModel>) -> Seq<Seq<char>> {
    check_from(ingots, 0).0
}

/// Whether a file passes its checks, or the first error.
pub open spec fn ast_verdict(ingots: Seq<IngotModel>) -> Result<(), ErrorModel> {
    check_from(ingots, 0).1
}

/// Whether an ISR's call is one that the checks accept: it names exactly one
/// external function, passes as many arguments as that function declares,
/// each of them `$` and none for an `i8` parameter, and the callee's
/// privilege is no higher than the ISR's (an undeclared privilege being
/// `Super`). An ISR that calls nothing is accepted.
pub open spec fn call_is_sound(ingots: Seq<IngotModel>, isr: IsrModel) -> bool {
    match isr.calling_func {
        None => true,
        Some(call) => {
            let found = callees(ingots, call.name);
            &&& found.len() == 1
            &&& found[0].args.len() == call.args.len()
            &&& forall|k: int|
                0 <= k < call.args.len() ==> call.args[k] == CallArgModel::Dollar
                    && #[trigger] found[0].args[k].type_t != FuncArgType::I8
            &&& rank(level_of(found[0].privilege)) <= rank(level_of(isr.privilege))
        },
    }
}

proof fn lemma_argument_error_none(callee: ExternFnModel, isr: IsrModel, i: int)
    requires
        isr.calling_func is Some,
        0 <= i,
        callee.args.len() == isr.calling_func->0.args.len(),
    ensures
        argument_error(callee, isr, i) is None <==> forall|k: int|
            i <= k < callee.args.len() ==> isr.calling_func->0.args[k] == CallArgModel::Dollar
                && #[trigger] callee.args[k].type_t != FuncArgType::I8,
    decreases isr.calling_func->0.args.len() - i,
{
    if i < callee.args.len() {
        lemma_argument_error_none(callee, isr, i + 1);
        if argument_error(callee, isr, i) is Some {
            let args = isr.calling_func->0.args;
            if args[i] == CallArgModel::Dollar && callee.args[i].type_t != FuncArgType::I8 {
                assert(argument_error(callee, isr, i + 1) is Some);
            }
        }
    }
}

proof fn lemma_check_isr_sound(ingots: Seq<IngotModel>, isr: IsrModel)
    ensures
        check_isr(ingots, isr).1 is Ok <==> call_is_sound(ingots, isr),
{
    if let Some(call) = isr.calling_func {
        let found = callees(ingots, call.name);
        if found.len() == 1 && found[0].args.len() == call.args.len() {
            lemma_argument_error_none(found[0], isr, 0);
        }
    }
}

/// The checks accept a file exactly when the call of every ISR in it is
/// sound (see `call_is_sound`); the first ISR whose call is not decides the
/// error.
pub proof fn lemma_verdict_ok_iff_calls_sound(ingots: Seq<IngotModel>)
    ensures
        ast_verdict(ingots) is Ok <==> forall|j: int|
            0 <= j < ingots.len() && #[trigger] ingots[j] is Isr ==> call_is_sound(
                ingots,
                ingots[j]->Isr_0,
            ),
{
    lemma_check_from_sound(ingots, 0);
}

proof fn lemma_check_from_sound(ingots: Seq<IngotModel>, i: int)
    requires
        0 <= i,
    ensures
        check_from(ingots, i).1 is Ok <==> forall|j: int|
            i <= j < ingots.len() && #[trigger] ingots[j] is Isr ==> call_is_sound(
                ingots,
                ingots[j]->Isr_0,
            ),
    decreases ingots.len() - i,
{
    if i < ingots.len() {
        lemma_check_from_sound(ingots, i + 1);
        if let IngotModel::Isr(isr) = ingots[i] {
            lemma_check_isr_sound(ingots, isr);
        }
    }
}

proof fn lemma_callees_count(ingots: Seq<IngotModel>, name: Seq<char>)
    ensures
        forall|f: ExternFnModel| #[trigger]
            callees(ingots, name).to_multiset().count(f) == (if f.name == name {
                ingots.to_multiset().count(IngotModel::ExternalFunction(f))
            } else {
                0
            }),
    decreases ingots.len(),
{
    broadcast use vstd::seq_lib::group_to_multiset_ensures, vstd::multiset::group_multiset_axioms;

    if ingots.len() == 0 {
        assert(callees(ingots, name) =~= Seq::<ExternFnModel>::empty());
    } else {
        let front = ingots.drop_last();
        lemma_callees_count(front, name);
        assert(ingots =~= front.push(ingots.last()));
        vstd::seq_lib::to_multiset_build(front, ingots.last());
        let c = callees(front, name);
        match ingots.last() {
            IngotModel::ExternalFunction(g) => {
                if g.name == name {
                    vstd::seq_lib::to_multiset_build(c, g);
                }
            },
            IngotModel::Isr(_) => {},
        }
    }
}

proof fn lemma_callees_order_free(a: Seq<IngotModel>, b: Seq<IngotModel>, name: Seq<char>)
    requires
        a.to_multiset() == b.to_multiset(),
    ensures
        callees(a, name).len() == callees(b, name).len(),
        callees(a, name).len() == 1 ==> callees(a, name)[0] == callees(b, name)[0],
{
    broadcast use vstd::seq_lib::group_to_multiset_ensures;

    lemma_callees_count(a, name);
    lemma_callees_count(b, name);
    let ca = callees(a, name);
    let cb = callees(b, name);
    assert(ca.to_multiset() =~= cb.to_multiset());
    vstd::seq_lib::to_multiset_len(ca);
    vstd::seq_lib::to_multiset_len(cb);
    if ca.len() == 1 {
        assert(ca.contains(ca[0]));
        vstd::seq_lib::to_multiset_contains(ca, ca[0]);
        vstd::seq_lib::to_multiset_contains(cb, ca[0]);
        assert(cb.contains(ca[0]));
    }
}

/// Whether the checks accept a file does not depend on the order of its
/// items: an external function may be declared after the ISR that calls
/// it, since callees are looked up in the whole file.
pub proof fn lemma_verdict_ignores_order(a: Seq<IngotModel>, b: Seq<IngotModel>)
    requires
        a.to_multiset() == b.to_multiset(),
    ensures
        ast_verdict(a) is Ok <==> ast_verdict(b) is Ok,
{
    lemma_verdict_ok_iff_calls_sound(a);
    lemma_verdict_ok_iff_calls_sound(b);
    if ast_verdict(a) is Ok {
        lemma_sound_carries_over(a, b);
    }
    if ast_verdict(b) is Ok {
        lemma_sound_carries_over(b, a);
    }
}

proof fn lemma_sound_carries_over(a: Seq<IngotModel>, b: Seq<IngotModel>)
    requires
        a.to_multiset() == b.to_multiset(),
        forall|j: int|
            0 <= j < a.len() && #[trigger] a[j] is Isr ==> call_is_sound(a, a[j]->Isr_0),
    ensures
        forall|j: int|
            0 <= j < b.len() && #[trigger] b[j] is Isr ==> call_is_sound(b, b[j]->Isr_0),
{
    broadcast use vstd::seq_lib::group_to_multiset_ensures;

    assert forall|j: int| 0 <= j < b.len() && #[trigger] b[j] is Isr implies call_is_sound(
        b,
        b[j]->Isr_0,
    ) by {
        let isr = b[j]->Isr_0;
        assert(b.contains(b[j]));
        vstd::seq_lib::to_multiset_contains(a, b[j]);
        vstd::seq_lib::to_multiset_contains(b, b[j]);
        assert(a.contains(b[j]));
        let i = choose|i: int| 0 <= i < a.len() && a[i] == b[j];
        assert(a[i] is Isr);
        if let Some(call) = isr.calling_func {
            lemma_callees_order_free(a, b, call.name);
        }
    }
}

/// The texts of a sequence of strings.
pub open spec fn string_models(v: Seq<String>) -> Seq<Seq<char>> {
    v.map_values(|s: String| s@)
}

/// The model of a check's result.
pub open spec fn verdict_model(r: Result<(), CompilationError>) -> Result<(), ErrorModel> {
    match r {
        Ok(()) => Ok(()),
        Err(e) => Err(e@),
    }
}

fn push_line(out: &mut Vec<String>, line: String)
    ensures
        string_models(final(out)@) == string_models(old(out)@).push(line@),
{
    let ghost before = out@;
    out.push(line);
    assert(string_models(out@) =~= string_models(before).push(line@));
}

impl Ast {
    /// Checks the file: every ISR that calls a function calls exactly one
    /// declared external function, with as many arguments as it declares,
    /// each of them `$` and none of them for an `i8` parameter, and at a
    /// privilege no higher than the ISR's own (an undeclared privilege is
    /// `Super`). The warnings that the checks find on the way are appended to
    /// `warnings`, one line each; the checks stop at the first error.
    pub fn verify(&self, warnings: &mut Vec<String>) -> (r: Result<(), CompilationError>)
        ensures
            string_models(final(warnings)@) == string_models(old(warnings)@) + ast_warnings(
                self@,
            ),
            verdict_model(r) == ast_verdict(self@),
    {
        let n: usize = self.0.len();
        let mut i: usize = 0;
        while i < n
            invariant
                n == self.0@.len(),
                0 <= i <= n,
                self@ == ingot_models(self.0@),
                string_models(old(warnings)@) + ast_warnings(self@) == string_models(warnings@)
                    + check_from(self@, i as int).0,
                ast_verdict(self@) == check_from(self@, i as int).1,
            decreases n - i,
        {
            let ghost before = string_models(warnings@);
            assert(self@[i as int] == self.0@[i as int]@);
            match &self.0[i] {
                Ingot::ExternalFunction(extern_func) => {
                    if extern_func.args.len() > 1 {
                        push_line(
                            warnings,
                            String::from_str(
                                "Warning(Definition): Multiple args in external functions not yet supported",
                            ),
                        );
                        let mut l = String::from_str("Function: ");
                        l.append(extern_func.name.as_str());
                        push_line(warnings, l);
                    }
                    assert(string_models(warnings@) =~= before + definition_warnings(
                        extern_func@,
                    ));
                },
                Ingot::Isr(isr) => {
                    let r = self.check_isr(isr, warnings);
                    match r {
                        Err(e) => {
                            return Err(e);
                        },
                        Ok(()) => {},
                    }
                },
            }
            i = i + 1;
        }
        assert(string_models(old(warnings)@) + ast_warnings(self@) =~= string_models(warnings@));
        Ok(())
    }

    /// The external functions of this file that are named `name`.
    fn find_callees(&self, name: &String) -> (r: Vec<&ExternalFunctionNode>)
        ensures
            r@.map_values(|f: &ExternalFunctionNode| f@) == callees(self@, name@),
    {
        let n: usize = self.0.len();
        let mut found: Vec<&ExternalFunctionNode> = Vec::new();
        let mut j: usize = 0;
        assert(self@.take(0) =~= Seq::<IngotModel>::empty());
        while j < n
            invariant
                n == self.0@.len(),
                0 <= j <= n,
                self@ == ingot_models(self.0@),
                found@.map_values(|f: &ExternalFunctionNode| f@) == callees(
                    self@.take(j as int),
                    name@,
                ),
            decreases n - j,
        {
            let ghost before = found@;
            assert(self@.take(j + 1).drop_last() =~= self@.take(j as int));
            assert(self@.take(j + 1).last() == self.0@[j as int]@);
            match &self.0[j] {
                Ingot::ExternalFunction(candidate) => {
                    if candidate.name == *name {
                        found.push(candidate);
                        assert(found@.map_values(|f: &ExternalFunctionNode| f@) =~= before.map_values(
                            |f: &ExternalFunctionNode| f@,
                        ).push(candidate@));
                    }
                },
                Ingot::Isr(_) => {},
            }
            j = j + 1;
        }
        assert(self@.take(n as int) =~= self@);
        found
    }

    /// Checks one ISR of this file, appending the warnings it gives.
    fn check_isr(&self, isr: &IsrNode, warnings: &mut Vec<String>) -> (r: Result<
        (),
        CompilationError,
    >)
        ensures
            string_models(final(warnings)@) == string_models(old(warnings)@) + check_isr(
                self@,
                isr@,
            ).0,
            verdict_model(r) == check_isr(self@, isr@).1,
    {
        let ghost before = string_models(warnings@);
        match &isr.calling_func {
            None => {
                push_line(
                    warnings,
                    String::from_str("Warning: Found ISR with no external function call."),
                );
                push_line(
                    warnings,
                    String::from_str(
                        "This will generate code that effectively ignores this interrupt.",
                    ),
                );
                assert(string_models(warnings@) =~= before + empty_isr_warnings());
                Ok(())
            },
            Some(callsite) => {
                let found = self.find_callees(&callsite.name);
                if found.len() == 0 {
                    let mut d = String::from_str("Attempt to call an undefined function: ");
                    d.append(callsite.name.as_str());
                    d.append(" from isr ");
                    d.append(isr.name.as_str());
                    assert(string_models(warnings@) =~= before + Seq::<Seq<char>>::empty());
                    return Err(CompilationError::new_without_src_info(d));
                }
                if found.len() > 1 {
                    let mut d = String::from_str("Attempt to call ambiguous function: ");
                    d.append(callsite.name.as_str());
                    d.append(" from isr ");
                    d.append(isr.name.as_str());
                    d.append(" (Did you accidentally define ");
                    d.append(callsite.name.as_str());
                    d.append(" twice?)");
                    assert(string_models(warnings@) =~= before + Seq::<Seq<char>>::empty());
                    return Err(CompilationError::new_without_src_info(d));
                }
                let callee: &ExternalFunctionNode = found[0];
                assert(callee@ == callees(self@, callsite@.name)[0]);
                if callee.args.len() != callsite.args.len() {
                    let mut d = String::from_str(
                        "Mismatched arg count between definition and usage of ",
                    );
                    d.append(callee.name.as_str());
                    d.append(" within isr ");
                    d.append(isr.name.as_str());
                    d.append("(");
                    push_decimal(&mut d, isr.id as u64);
                    d.append(")");
                    assert(string_models(warnings@) =~= before + Seq::<Seq<char>>::empty());
                    return Err(CompilationError::new_without_src_info(d));
                }
                if callee.args.len() > 1 {
                    push_line(
                        warnings,
                        String::from_str(
                            "Warning(Callsite): Multiple args in external functions not yet supported",
                        ),
                    );
                    let mut l = String::from_str("Function: ");
                    l.append(callee.name.as_str());
                    push_line(warnings, l);
                }
                assert(string_models(warnings@) =~= before + callsite_warnings(callee@));
                let r = Self::check_arguments(callee, callsite, isr);
                match r {
                    Err(e) => {
                        return Err(e);
                    },
                    Ok(()) => {},
                }
                let isr_privilege: Ring = match isr.privilege {
                    None => Ring::Super,
                    Some(p) => p,
                };
                let callee_privilege: Ring = match callee.privilege {
                    None => Ring::Super,
                    Some(p) => p,
                };
                if isr_privilege < callee_privilege {
                    let mut d = String::from_str("Attempt to call higher privilege function (");
                    d.append(callee.name.as_str());
                    d.append(") from lower privilege ISR (");
                    d.append(isr.name.as_str());
                    d.append(")");
                    return Err(CompilationError::new_without_src_info(d));
                }
                Ok(())
            },
        }
    }

    /// Checks, pair by pair, the call's arguments against the callee's
    /// parameters (of which there are as many).
    fn check_arguments(
        callee: &ExternalFunctionNode,
        callsite: &ExternalFunctionCall,
        isr: &IsrNode,
    ) -> (r: Result<(), CompilationError>)
        requires
            isr@.calling_func == Some(callsite@),
            callee.args@.len() == callsite.args@.len(),
        ensures
            match argument_error(callee@, isr@, 0) {
                Some(e) => r is Err && r->Err_0@ == e,
                None => r is Ok,
            },
    {
        let n: usize = callee.args.len();
        let mut k: usize = 0;
        while k < n
            invariant
                n == callee.args@.len(),
                n == callsite.args@.len(),
                0 <= k <= n,
                isr@.calling_func == Some(callsite@),
                argument_error(callee@, isr@, 0) == argument_error(callee@, isr@, k as int),
            decreases n - k,
        {
            assert(callee@.args[k as int] == callee.args@[k as int]@);
            assert(callsite@.args[k as int] == callsite.args@[k as int]@);
            match &callsite.args[k] {
                CallArg::Dollar => {
                    if callee.args[k].type_t == FuncArgType::I8 {
                        let mut d = String::from_str("At callsite of ");
                        d.append(callee.name.as_str());
                        d.append(" in isr ");
                        d.append(isr.name.as_str());
                        d.append("(");
                        d.append(isr.name.as_str());
                        d.append("): '$' (AKA U8) not safely convertable to I8");
                        return Err(CompilationError::new_without_src_info(d));
                    }
                },
                CallArg::Var(var) => {
                    let mut d = String::from_str("At callsite of ");
                    d.append(callee.name.as_str());
                    d.append(" in isr ");
                    d.append(isr.name.as_str());
                    push_decimal(&mut d, isr.id as u64);
                    d.append(": arbitrary variable expressions (");
                    d.append(var.as_str());
                    d.append(") not yet supported");
                    return Err(CompilationError::new_without_src_info(d));
                },
            }
            k = k + 1;
        }
        Ok(())
    }
}

} // verus!
