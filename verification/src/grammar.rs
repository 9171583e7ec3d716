//! What the parser makes of a sequence of tokens: each production of the
//! Anillo grammar, as a function from the tokens to the parsed value (or the
//! error) and the tokens that are left.

use vstd::prelude::*;

use crate::ast::{CallArgModel, CallModel, ExternFnModel, FuncArgModel, FuncArgType, IngotModel, IsrModel};
use crate::error::{error_at, ErrorModel};
use crate::ring::Ring;
use crate::text::{int_error_text, u8_from_decimal};
use crate::token::{token_text, TokenInfoModel, TokenModel};

verus! {

/// What the argument list of an external function expects next.
#[derive(Debug, Clone, Copy, PartialEq, Eq, Structural)]
pub enum ArgSeek {
    /// Right after '(': a type or ')'.
    Start,
    /// After a type: the argument's name.
    SeekArg,
    /// After an argument: a type, a ',' or ')'.
    SeekType,
}

/// What the argument list of a call expects next.
#[derive(Debug, Clone, Copy, PartialEq, Eq, Structural)]
pub enum CallSeek {
    /// Right after '(': '$' or ')'.
    Start,
    /// After ',': an argument.
    SeekArg,
    /// After an argument: ',' or ')'.
    SeekComma,
}

/// A parse result with the tokens that are left after it.
pub type Parsed<T> = (Result<T, ErrorModel>, Seq<TokenInfoModel>);

/// The C type that a type name stands for.
pub open spec fn c_type(s: Seq<char>) -> Option<FuncArgType> {
    if s == "u8"@ {
        Some(FuncArgType::U8)
    } else if s == "i8"@ {
        Some(FuncArgType::I8)
    } else if s == "u16"@ {
        Some(FuncArgType::U16)
    } else if s == "i16"@ {
        Some(FuncArgType::I16)
    } else if s == "u32"@ {
        Some(FuncArgType::U32)
    } else if s == "i32"@ {
        Some(FuncArgType::I32)
    } else if s == "u64"@ {
        Some(FuncArgType::U64)
    } else if s == "i64"@ {
        Some(FuncArgType::I64)
    } else {
        None
    }
}

/// The arguments of an external function's declaration, read after its
/// '(' up to and including ')' (or to the end of the tokens): pairs of a type
/// and a name, with commas allowed anywhere but right after '('. `acc` holds
/// the arguments read so far and `type_t` the last type read.
pub open spec fn func_args_from(
    ts: Seq<TokenInfoModel>,
    state: ArgSeek,
    type_t: FuncArgType,
    acc: Seq<FuncArgModel>,
) -> Parsed<Seq<FuncArgModel>>
    decreases ts.len(),
{
    if ts.len() == 0 {
        (Ok(acc), ts)
    } else {
        let t = ts[0];
        let rest = ts.drop_first();
        match t.token {
            TokenModel::RightParen => if state == ArgSeek::SeekArg {
                (
                    Err(
                        error_at(
                            t.line,
                            t.col,
                            "Expected arg name for function argument, found ')'"@,
                        ),
                    ),
                    rest,
                )
            } else {
                (Ok(acc), rest)
            },
            TokenModel::Identifier(s) => if state == ArgSeek::SeekArg {
                func_args_from(
                    rest,
                    ArgSeek::SeekType,
                    type_t,
                    acc.push(FuncArgModel { name: s, type_t }),
                )
            } else {
                match c_type(s) {
                    Some(ty) => func_args_from(rest, ArgSeek::SeekArg, ty, acc),
                    None => (Err(error_at(t.line, t.col, "Invalid c type: "@ + s)), rest),
                }
            },
            TokenModel::Comma => if state == ArgSeek::Start {
                (Err(error_at(t.line, t.col, "Expected ')' or fun arg, got ','"@)), rest)
            } else {
                func_args_from(rest, state, type_t, acc)
            },
            _ => (
                Err(
                    error_at(
                        t.line,
                        t.col,
                        "Unexpected token while parsing func_args: "@ + token_text(t.token),
                    ),
                ),
                rest,
            ),
        }
    }
}

/// The privilege clause `WithLevel ( User )` or `WithLevel ( Super )`.
/// `last_line` and `last_col` place the error when no tokens are left.
pub open spec fn withlevel_spec(
    ts: Seq<TokenInfoModel>,
    last_line: u32,
    last_col: u32,
) -> Parsed<Ring> {
    if ts.len() == 0 {
        (Err(error_at(last_line, last_col, "Expected 'WithLevel', found EOF"@)), ts)
    } else {
        let t = ts[0];
        let r1 = ts.drop_first();
        match t.token {
            TokenModel::KeywordWithLevel => if r1.len() == 0 {
                (Err(error_at(t.line, t.col, "Expected '(' after WithLevel, found EOF"@)), r1)
            } else {
                let lp = r1[0];
                let r2 = r1.drop_first();
                match lp.token {
                    TokenModel::LeftParen => if r2.len() == 0 {
                        (Err(error_at(lp.line, lp.col, "Expected privilege level, found EOF"@)), r2)
                    } else {
                        let pl = r2[0];
                        let r3 = r2.drop_first();
                        match pl.token {
                            TokenModel::KeywordPrivilege(level) => if r3.len() == 0 {
                                (
                                    Err(
                                        error_at(
                                            pl.line,
                                            pl.col,
                                            "Expected ')' after privilege level, found EOF"@,
                                        ),
                                    ),
                                    r3,
                                )
                            } else {
                                let rp = r3[0];
                                let r4 = r3.drop_first();
                                match rp.token {
                                    TokenModel::RightParen => (Ok(level), r4),
                                    _ => (
                                        Err(
                                            error_at(
                                                rp.line,
                                                rp.col,
                                                "Expected ')' after privilege level, found "@
                                                    + token_text(rp.token),
                                            ),
                                        ),
                                        r4,
                                    ),
                                }
                            },
                            _ => (
                                Err(
                                    error_at(
                                        pl.line,
                                        pl.col,
                                        "Expected privilege level, found: "@ + token_text(
                                            pl.token,
                                        ),
                                    ),
                                ),
                                r3,
                            ),
                        }
                    },
                    _ => (
                        Err(
                            error_at(
                                lp.line,
                                lp.col,
                                "Expected '(' after WithLevel, found: "@ + token_text(lp.token),
                            ),
                        ),
                        r2,
                    ),
                }
            },
            _ => (
                Err(
                    error_at(t.line, t.col, "Expected 'WithLevel', found: "@ + token_text(t.token)),
                ),
                r1,
            ),
        }
    }
}

/// Whether the next token starts a privilege clause.
pub open spec fn starts_withlevel(ts: Seq<TokenInfoModel>) -> bool {
    ts.len() > 0 && ts[0].token is KeywordWithLevel
}

/// An optional privilege clause: read where the next token is `WithLevel`.
pub open spec fn optional_withlevel(
    ts: Seq<TokenInfoModel>,
    last_line: u32,
    last_col: u32,
) -> Parsed<Option<Ring>> {
    if starts_withlevel(ts) {
        let p = withlevel_spec(ts, last_line, last_col);
        match p.0 {
            Ok(level) => (Ok(Some(level)), p.1),
            Err(e) => (Err(e), p.1),
        }
    } else {
        (Ok(None), ts)
    }
}

/// An external function declaration after its `extern` keyword: a name,
/// '(' and the argument list, and an optional privilege clause.
pub open spec fn extern_spec(
    ts: Seq<TokenInfoModel>,
    last_line: u32,
    last_col: u32,
) -> Parsed<ExternFnModel> {
    if ts.len() == 0 {
        (
            Err(
                error_at(
                    last_line,
                    last_col,
                    "Expected function name after extern declaration, found EOF"@,
                ),
            ),
            ts,
        )
    } else {
        let func = ts[0];
        let r1 = ts.drop_first();
        match func.token {
            TokenModel::Identifier(name) => if r1.len() == 0 {
                (
                    Err(
                        error_at(
                            func.line,
                            func.col,
                            "Expected '(' after extern declaration, found EOF"@,
                        ),
                    ),
                    r1,
                )
            } else {
                let lp = r1[0];
                let r2 = r1.drop_first();
                match lp.token {
                    TokenModel::LeftParen => {
                        let args = func_args_from(r2, ArgSeek::Start, FuncArgType::U8, seq![]);
                        match args.0 {
                            Err(e) => (Err(e), args.1),
                            Ok(a) => {
                                let p = optional_withlevel(args.1, lp.line, lp.col);
                                match p.0 {
                                    Err(e) => (Err(e), p.1),
                                    Ok(privilege) => (
                                        Ok(ExternFnModel { name, args: a, privilege }),
                                        p.1,
                                    ),
                                }
                            },
                        }
                    },
                    _ => (
                        Err(
                            error_at(
                                lp.line,
                                lp.col,
                                "Expected '(' after extern declaration, found: "@ + token_text(
                                    lp.token,
                                ),
                            ),
                        ),
                        r2,
                    ),
                }
            },
            _ => (
                Err(
                    error_at(
                        func.line,
                        func.col,
                        "Expected function name after extern declaration, found: "@ + token_text(
                            func.token,
                        ),
                    ),
                ),
                r1,
            ),
        }
    }
}

/// The arguments of a call, read after its '(' up to and including ')' (or
/// to the end of the tokens): the first is `$`, later ones `$` or a name,
/// separated by commas.
pub open spec fn call_args_from(
    ts: Seq<TokenInfoModel>,
    state: CallSeek,
    acc: Seq<CallArgModel>,
) -> Parsed<Seq<CallArgModel>>
    decreases ts.len(),
{
    if ts.len() == 0 {
        (Ok(acc), ts)
    } else {
        let t = ts[0];
        let rest = ts.drop_first();
        let unexpected = error_at(
            t.line,
            t.col,
            "Unexpected token in call expression: "@ + token_text(t.token),
        );
        match t.token {
            TokenModel::RightParen => if state == CallSeek::SeekArg {
                (Err(error_at(t.line, t.col, "Expected argument, found ')'"@)), rest)
            } else {
                (Ok(acc), rest)
            },
            TokenModel::Identifier(a) => if state == CallSeek::SeekArg {
                call_args_from(rest, CallSeek::SeekComma, acc.push(CallArgModel::Var(a)))
            } else {
                (Err(unexpected), rest)
            },
            TokenModel::Dollar => if state == CallSeek::SeekComma {
                (Err(unexpected), rest)
            } else {
                call_args_from(rest, CallSeek::SeekComma, acc.push(CallArgModel::Dollar))
            },
            TokenModel::Comma => if state == CallSeek::SeekComma {
                call_args_from(rest, CallSeek::SeekArg, acc)
            } else {
                (Err(unexpected), rest)
            },
            _ => (Err(unexpected), rest),
        }
    }
}

/// A call after its `call` keyword: a name, '(' and the argument list, and
/// the '}' that closes the ISR's body.
pub open spec fn call_spec(ts: Seq<TokenInfoModel>, last_line: u32, last_col: u32) -> Parsed<
    CallModel,
> {
    if ts.len() == 0 {
        (Err(error_at(last_line, last_col, "Expected function name, found EOF"@)), ts)
    } else {
        let func = ts[0];
        let r1 = ts.drop_first();
        match func.token {
            TokenModel::Identifier(name) => if r1.len() == 0 {
                (Err(error_at(func.line, func.col, "Expected '(', found EOF"@)), r1)
            } else {
                let lp = r1[0];
                let r2 = r1.drop_first();
                match lp.token {
                    TokenModel::LeftParen => {
                        let args = call_args_from(r2, CallSeek::Start, seq![]);
                        match args.0 {
                            Err(e) => (Err(e), args.1),
                            Ok(a) => {
                                let r3 = args.1;
                                if r3.len() == 0 {
                                    (
                                        Err(error_at(func.line, func.col, "Expected '}', found EOF"@)),
                                        r3,
                                    )
                                } else {
                                    let rb = r3[0];
                                    let r4 = r3.drop_first();
                                    match rb.token {
                                        TokenModel::RightBracket => (
                                            Ok(CallModel { name, args: a }),
                                            r4,
                                        ),
                                        _ => (
                                            Err(
                                                error_at(
                                                    rb.line,
                                                    rb.col,
                                                    "Expected '}', found: "@ + token_text(rb.token),
                                                ),
                                            ),
                                            r4,
                                        ),
                                    }
                                }
                            },
                        }
                    },
                    _ => (
                        Err(
                            error_at(lp.line, lp.col, "Expected '(', found: "@ + token_text(lp.token)),
                        ),
                        r2,
                    ),
                }
            },
            _ => (
                Err(
                    error_at(
                        func.line,
                        func.col,
                        "Expected function name, found: "@ + token_text(func.token),
                    ),
                ),
                r1,
            ),
        }
    }
}

/// The body of an ISR: '{' then either '}' or a call.
pub open spec fn isr_body_spec(
    ts: Seq<TokenInfoModel>,
    last_line: u32,
    last_col: u32,
) -> Parsed<Option<CallModel>> {
    if ts.len() == 0 {
        (Err(error_at(last_line, last_col, "Expected opening '{', found EOF"@)), ts)
    } else {
        let lb = ts[0];
        let r1 = ts.drop_first();
        match lb.token {
            TokenModel::LeftBracket => if r1.len() == 0 {
                (
                    Err(
                        error_at(
                            lb.line,
                            lb.col,
                            "Expected call expression or closing '}', found EOF"@,
                        ),
                    ),
                    r1,
                )
            } else {
                let t = r1[0];
                let r2 = r1.drop_first();
                match t.token {
                    TokenModel::KeywordCall => {
                        let c = call_spec(r2, t.line, t.col);
                        match c.0 {
                            Ok(call) => (Ok(Some(call)), c.1),
                            Err(e) => (Err(e), c.1),
                        }
                    },
                    TokenModel::RightBracket => (Ok(None), r2),
                    _ => (
                        Err(
                            error_at(
                                t.line,
                                t.col,
                                "Expected call expression or closing '}', found: "@ + token_text(
                                    t.token,
                                ),
                            ),
                        ),
                        r2,
                    ),
                }
            },
            _ => (
                Err(
                    error_at(lb.line, lb.col, "Expected opening '{', found: "@ + token_text(lb.token)),
                ),
                r1,
            ),
        }
    }
}

/// An ISR after its `isr` keyword: a name, its number in parentheses (a
/// decimal from 0 to 255), an optional privilege clause, and its body.
pub open spec fn isr_spec(ts: Seq<TokenInfoModel>, last_line: u32, last_col: u32) -> Parsed<
    IsrModel,
> {
    if ts.len() == 0 {
        (Err(error_at(last_line, last_col, "Expected ISR name, found EOF"@)), ts)
    } else {
        let nm = ts[0];
        let r1 = ts.drop_first();
        match nm.token {
            TokenModel::Identifier(name) => if r1.len() == 0 {
                (Err(error_at(nm.line, nm.col, "Expected '(' after Isr name, found EOF"@)), r1)
            } else {
                let lp = r1[0];
                let r2 = r1.drop_first();
                match lp.token {
                    TokenModel::LeftParen => if r2.len() == 0 {
                        (Err(error_at(lp.line, lp.col, "Expected an Isr number, found EOF"@)), r2)
                    } else {
                        let num = r2[0];
                        let r3 = r2.drop_first();
                        match num.token {
                            TokenModel::Identifier(digits) => match u8_from_decimal(digits) {
                                Err(k) => (
                                    Err(
                                        error_at(
                                            num.line,
                                            num.col,
                                            "Expected numeric value, failed with: "@
                                                + int_error_text(k),
                                        ),
                                    ),
                                    r3,
                                ),
                                Ok(id) => if r3.len() == 0 {
                                    (
                                        Err(
                                            error_at(
                                                num.line,
                                                num.col,
                                                "Expected closing ')', found EOF"@,
                                            ),
                                        ),
                                        r3,
                                    )
                                } else {
                                    let rp = r3[0];
                                    let r4 = r3.drop_first();
                                    match rp.token {
                                        TokenModel::RightParen => {
                                            let p = optional_withlevel(r4, num.line, num.col);
                                            match p.0 {
                                                Err(e) => (Err(e), p.1),
                                                Ok(privilege) => {
                                                    let b = isr_body_spec(p.1, num.line, num.col);
                                                    match b.0 {
                                                        Err(e) => (Err(e), b.1),
                                                        Ok(calling_func) => (
                                                            Ok(
                                                                IsrModel {
                                                                    name,
                                                                    id,
                                                                    privilege,
                                                                    calling_func,
                                                                },
                                                            ),
                                                            b.1,
                                                        ),
                                                    }
                                                },
                                            }
                                        },
                                        _ => (
                                            Err(
                                                error_at(
                                                    rp.line,
                                                    rp.col,
                                                    "Expected closing ')', found: "@ + token_text(
                                                        rp.token,
                                                    ),
                                                ),
                                            ),
                                            r4,
                                        ),
                                    }
                                },
                            },
                            _ => (
                                Err(
                                    error_at(
                                        num.line,
                                        num.col,
                                        "Expected an Isr number, found: "@ + token_text(num.token),
                                    ),
                                ),
                                r3,
                            ),
                        }
                    },
                    _ => (
                        Err(
                            error_at(
                                lp.line,
                                lp.col,
                                "Expected '(' after Isr name, found: "@ + token_text(lp.token),
                            ),
                        ),
                        r2,
                    ),
                }
            },
            _ => (
                Err(error_at(nm.line, nm.col, "Expected ISR name, found: "@ + token_text(nm.token))),
                r1,
            ),
        }
    }
}

/// One top-level item, from a non-empty sequence of tokens: an external
/// function after `extern`, or an ISR after `isr`.
pub open spec fn ingot_spec(ts: Seq<TokenInfoModel>) -> Parsed<IngotModel> {
    let t = ts[0];
    let r1 = ts.drop_first();
    match t.token {
        TokenModel::KeywordExtern => {
            let e = extern_spec(r1, t.line, t.col);
            match e.0 {
                Ok(f) => (Ok(IngotModel::ExternalFunction(f)), e.1),
                Err(err) => (Err(err), e.1),
            }
        },
        TokenModel::KeywordIsr => {
            let i = isr_spec(r1, t.line, t.col);
            match i.0 {
                Ok(isr) => (Ok(IngotModel::Isr(isr)), i.1),
                Err(err) => (Err(err), i.1),
            }
        },
        _ => (
            Err(
                error_at(t.line, t.col, "Expected the start of an Ingot, got "@ + token_text(t.token)),
            ),
            r1,
        ),
    }
}

proof fn lemma_func_args_shrink(
    ts: Seq<TokenInfoModel>,
    state: ArgSeek,
    type_t: FuncArgType,
    acc: Seq<FuncArgModel>,
)
    ensures
        func_args_from(ts, state, type_t, acc).1.len() <= ts.len(),
    decreases ts.len(),
{
    if ts.len() > 0 {
        let rest = ts.drop_first();
        match ts[0].token {
            TokenModel::Identifier(s) => {
                if state == ArgSeek::SeekArg {
                    lemma_func_args_shrink(
                        rest,
                        ArgSeek::SeekType,
                        type_t,
                        acc.push(FuncArgModel { name: s, type_t }),
                    );
                } else if let Some(ty) = c_type(s) {
                    lemma_func_args_shrink(rest, ArgSeek::SeekArg, ty, acc);
                }
            },
            TokenModel::Comma => {
                lemma_func_args_shrink(rest, state, type_t, acc);
            },
            _ => {},
        }
    }
}

proof fn lemma_call_args_shrink(ts: Seq<TokenInfoModel>, state: CallSeek, acc: Seq<CallArgModel>)
    ensures
        call_args_from(ts, state, acc).1.len() <= ts.len(),
    decreases ts.len(),
{
    if ts.len() > 0 {
        let rest = ts.drop_first();
        match ts[0].token {
            TokenModel::Identifier(a) => {
                lemma_call_args_shrink(rest, CallSeek::SeekComma, acc.push(CallArgModel::Var(a)));
            },
            TokenModel::Dollar => {
                lemma_call_args_shrink(rest, CallSeek::SeekComma, acc.push(CallArgModel::Dollar));
            },
            TokenModel::Comma => {
                lemma_call_args_shrink(rest, CallSeek::SeekArg, acc);
            },
            _ => {},
        }
    }
}

proof fn lemma_isr_body_shrink(ts: Seq<TokenInfoModel>, last_line: u32, last_col: u32)
    ensures
        isr_body_spec(ts, last_line, last_col).1.len() <= ts.len(),
{
    if ts.len() > 1 {
        let r2 = ts.drop_first().drop_first();
        lemma_call_args_shrink(r2.drop_first().drop_first(), CallSeek::Start, seq![]);
    }
}

/// Reading a top-level item takes at least its first token.
pub proof fn lemma_ingot_shrink(ts: Seq<TokenInfoModel>)
    requires
        ts.len() > 0,
    ensures
        ingot_spec(ts).1.len() < ts.len(),
{
    let r1 = ts.drop_first();
    if r1.len() > 2 {
        lemma_func_args_shrink(r1.drop_first().drop_first(), ArgSeek::Start, FuncArgType::U8, seq![]);
        let r4 = r1.drop_first().drop_first().drop_first().drop_first();
        let ln = r1.drop_first().drop_first()[0];
        let p = optional_withlevel(r4, ln.line, ln.col);
        lemma_isr_body_shrink(p.1, ln.line, ln.col);
    }
}

/// The top-level items of the file, read one after another until no tokens
/// are left or an item fails; `acc` holds the items read so far.
pub open spec fn items_from(ts: Seq<TokenInfoModel>, acc: Seq<IngotModel>) -> Parsed<
    Seq<IngotModel>,
>
    decreases ts.len(),
{
    if ts.len() == 0 {
        (Ok(acc), ts)
    } else {
        let step = ingot_spec(ts);
        proof {
            lemma_ingot_shrink(ts);
        }
        match step.0 {
            Err(e) => (Err(e), step.1),
            Ok(item) => items_from(step.1, acc.push(item)),
        }
    }
}

proof fn lemma_items_consume_all(ts: Seq<TokenInfoModel>, acc: Seq<IngotModel>)
    ensures
        items_from(ts, acc).0 is Ok ==> items_from(ts, acc).1.len() == 0,
    decreases ts.len(),
{
    if ts.len() > 0 {
        lemma_ingot_shrink(ts);
        let step = ingot_spec(ts);
        if let Ok(item) = step.0 {
            lemma_items_consume_all(step.1, acc.push(item));
        }
    }
}

/// A successful parse reads every token: none are left after it.
pub proof fn lemma_parse_consumes_all(ts: Seq<TokenInfoModel>)
    ensures
        parse_tokens(ts).0 is Ok ==> parse_tokens(ts).1.len() == 0,
{
    lemma_items_consume_all(ts, seq![]);
}

/// What parsing a whole token sequence gives.
pub open spec fn parse_tokens(ts: Seq<TokenInfoModel>) -> Parsed<Seq<IngotModel>> {
    items_from(ts, seq![])
}

} // verus!
