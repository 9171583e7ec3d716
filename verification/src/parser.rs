//! The Anillo parser: from tokens to the abstract syntax tree.

use vstd::prelude::*;

use std::collections::VecDeque;

use crate::ast::{
    call_arg_models, func_arg_models, ingot_models, Ast, CallArg, CallModel,
    ExternalFunctionCall, ExternalFunctionNode, FuncArg, FuncArgModel, FuncArgType, Ingot,
    IngotModel, IsrNode,
};
use crate::error::{CompilationError, ErrorModel};
use crate::grammar::{
    c_type, call_args_from, call_spec, extern_spec, func_args_from, ingot_spec, isr_body_spec,
    isr_spec, items_from, parse_tokens, starts_withlevel, withlevel_spec, ArgSeek, CallSeek,
};
use crate::ring::Ring;
use crate::text::parse_u8;
use crate::token::{token_models, Token, TokenInfo, TokenInfoModel};

verus! {

/// The model of a parse result whose value has a view.
pub open spec fn result_model<T: View>(r: Result<T, CompilationError>) -> Result<T::V, ErrorModel> {
    match r {
        Ok(v) => Ok(v@),
        Err(e) => Err(e@),
    }
}

/// The model of a parsed level.
pub open spec fn ring_result_model(r: Result<Ring, CompilationError>) -> Result<Ring, ErrorModel> {
    match r {
        Ok(v) => Ok(v),
        Err(e) => Err(e@),
    }
}

/// The model of a parsed ISR body.
pub open spec fn body_result_model(r: Result<Option<ExternalFunctionCall>, CompilationError>) -> Result<
    Option<CallModel>,
    ErrorModel,
> {
    match r {
        Ok(Some(c)) => Ok(Some(c@)),
        Ok(None) => Ok(None),
        Err(e) => Err(e@),
    }
}

/// The model of a parsed argument list.
pub open spec fn args_result_model(r: Result<Vec<FuncArg>, CompilationError>) -> Result<
    Seq<FuncArgModel>,
    ErrorModel,
> {
    match r {
        Ok(v) => Ok(func_arg_models(v@)),
        Err(e) => Err(e@),
    }
}

/// The model of a parsed file.
pub open spec fn ast_result_model(r: Result<Ast, CompilationError>) -> Result<
    Seq<IngotModel>,
    ErrorModel,
> {
    match r {
        Ok(a) => Ok(a@),
        Err(e) => Err(e@),
    }
}

#[derive(Debug)]
pub struct Parser {
    tokens: VecDeque<TokenInfo>,
}

impl Parser {
    /// The tokens that are still to be parsed.
    pub closed spec fn pending(&self) -> Seq<TokenInfoModel> {
        token_models(self.tokens@)
    }

    pub fn new(tokens: VecDeque<TokenInfo>) -> (r: Parser)
        ensures
            r.pending() == token_models(tokens@),
    {
        Parser { tokens }
    }

    /// The tokens that are still to be parsed.
    pub fn tokens(&self) -> (r: &VecDeque<TokenInfo>)
        ensures
            token_models(r@) == self.pending(),
    {
        &self.tokens
    }

    fn next_token(&mut self) -> (r: Option<TokenInfo>)
        ensures
            match r {
                Some(t) => {
                    &&& old(self).pending().len() > 0
                    &&& t@ == old(self).pending()[0]
                    &&& final(self).pending() == old(self).pending().drop_first()
                },
                None => {
                    &&& old(self).pending().len() == 0
                    &&& final(self).pending() == old(self).pending()
                },
            },
    {
        let ghost before = self.tokens@;
        let r = self.tokens.pop_front();
        proof {
            if r is Some {
                assert(token_models(self.tokens@) =~= token_models(before).drop_first());
            }
        }
        r
    }

    fn next_is_with_level(&self) -> (r: bool)
        ensures
            r == starts_withlevel(self.pending()),
    {
        if self.tokens.len() > 0 {
            match self.tokens[0].borrow_token() {
                Token::KeywordWithLevel => true,
                _ => false,
            }
        } else {
            false
        }
    }
}

impl Parser {
    /// The privilege clause `WithLevel ( level )`.
    fn parse_withlevel(&mut self, last_line: u32, last_column: u32) -> (r: Result<
        Ring,
        CompilationError,
    >)
        ensures
            ring_result_model(r) == withlevel_spec(old(self).pending(), last_line, last_column).0,
            final(self).pending() == withlevel_spec(old(self).pending(), last_line, last_column).1,
    {
        match self.next_token() {
            Some(token) => match token.borrow_token() {
                Token::KeywordWithLevel => match self.next_token() {
                    Some(lparen) => match lparen.borrow_token() {
                        Token::LeftParen => match self.next_token() {
                            Some(priv_level) => match priv_level.borrow_token() {
                                Token::KeywordPrivilege(level) => match self.next_token() {
                                    Some(token) => match token.borrow_token() {
                                        Token::RightParen => Ok(*level),
                                        other_token => Err(
                                            CompilationError::new(
                                                token.line(),
                                                token.col(),
                                                message_with_token(
                                                    "Expected ')' after privilege level, found ",
                                                    other_token,
                                                ),
                                            ),
                                        ),
                                    },
                                    None => Err(
                                        CompilationError::new(
                                            priv_level.line(),
                                            priv_level.col(),
                                            String::from_str(
                                                "Expected ')' after privilege level, found EOF",
                                            ),
                                        ),
                                    ),
                                },
                                other_token => Err(
                                    CompilationError::new(
                                        priv_level.line(),
                                        priv_level.col(),
                                        message_with_token(
                                            "Expected privilege level, found: ",
                                            other_token,
                                        ),
                                    ),
                                ),
                            },
                            None => Err(
                                CompilationError::new(
                                    lparen.line(),
                                    lparen.col(),
                                    String::from_str("Expected privilege level, found EOF"),
                                ),
                            ),
                        },
                        other_token => Err(
                            CompilationError::new(
                                lparen.line(),
                                lparen.col(),
                                message_with_token(
                                    "Expected '(' after WithLevel, found: ",
                                    other_token,
                                ),
                            ),
                        ),
                    },
                    None => Err(
                        CompilationError::new(
                            token.line(),
                            token.col(),
                            String::from_str("Expected '(' after WithLevel, found EOF"),
                        ),
                    ),
                },
                other_token => Err(
                    CompilationError::new(
                        token.line(),
                        token.col(),
                        message_with_token("Expected 'WithLevel', found: ", other_token),
                    ),
                ),
            },
            None => Err(
                CompilationError::new(
                    last_line,
                    last_column,
                    String::from_str("Expected 'WithLevel', found EOF"),
                ),
            ),
        }
    }

    /// The arguments of an external function, after its '(': pairs of a C
    /// type and a name, up to and including ')'.
    fn parse_func_args(&mut self) -> (r: Result<Vec<FuncArg>, CompilationError>)
        ensures
            args_result_model(r) == func_args_from(
                old(self).pending(),
                ArgSeek::Start,
                FuncArgType::U8,
                seq![],
            ).0,
            final(self).pending() == func_args_from(
                old(self).pending(),
                ArgSeek::Start,
                FuncArgType::U8,
                seq![],
            ).1,
    {
        let ghost ts0 = self.pending();
        let mut args: Vec<FuncArg> = Vec::new();
        let mut state: ArgSeek = ArgSeek::Start;
        let mut type_t: FuncArgType = FuncArgType::U8;
        assert(func_arg_models(args@) =~= Seq::<FuncArgModel>::empty());
        loop
            invariant
                ts0 == old(self).pending(),
                func_args_from(self.pending(), state, type_t, func_arg_models(args@))
                    == func_args_from(ts0, ArgSeek::Start, FuncArgType::U8, seq![]),
            decreases self.pending().len(),
        {
            let ghost before = func_arg_models(args@);
            let token = match self.next_token() {
                Some(t) => t,
                None => {
                    return Ok(args);
                },
            };
            match token.borrow_token() {
                Token::RightParen => {
                    if state == ArgSeek::SeekArg {
                        return Err(
                            CompilationError::new(
                                token.line(),
                                token.col(),
                                String::from_str(
                                    "Expected arg name for function argument, found ')'",
                                ),
                            ),
                        );
                    } else {
                        return Ok(args);
                    }
                },
                Token::Identifier(word) => {
                    if state == ArgSeek::SeekArg {
                        state = ArgSeek::SeekType;
                        args.push(FuncArg::new(word.clone(), type_t));
                        assert(func_arg_models(args@) =~= before.push(args@.last()@));
                    } else {
                        match c_type_of(word) {
                            Some(ty) => {
                                type_t = ty;
                                state = ArgSeek::SeekArg;
                            },
                            None => {
                                let mut d = String::from_str("Invalid c type: ");
                                d.append(word.as_str());
                                return Err(CompilationError::new(token.line(), token.col(), d));
                            },
                        }
                    }
                },
                Token::Comma => {
                    if state == ArgSeek::Start {
                        return Err(
                            CompilationError::new(
                                token.line(),
                                token.col(),
                                String::from_str("Expected ')' or fun arg, got ','"),
                            ),
                        );
                    }
                },
                unexpected => {
                    return Err(
                        CompilationError::new(
                            token.line(),
                            token.col(),
                            message_with_token(
                                "Unexpected token while parsing func_args: ",
                                unexpected,
                            ),
                        ),
                    );
                },
            }
        }
    }
}

impl Parser {
    /// A call after its `call` keyword: the function's name, its argument
    /// list in parentheses, and the '}' that closes the ISR's body.
    fn parse_function_call(&mut self, last_line: u32, last_col: u32) -> (r: Result<
        ExternalFunctionCall,
        CompilationError,
    >)
        ensures
            result_model(r) == call_spec(old(self).pending(), last_line, last_col).0,
            final(self).pending() == call_spec(old(self).pending(), last_line, last_col).1,
    {
        let func = match self.next_token() {
            Some(t) => t,
            None => {
                return Err(
                    CompilationError::new(
                        last_line,
                        last_col,
                        String::from_str("Expected function name, found EOF"),
                    ),
                );
            },
        };
        let func_name = match func.borrow_token() {
            Token::Identifier(name) => name,
            other => {
                return Err(
                    CompilationError::new(
                        func.line(),
                        func.col(),
                        message_with_token("Expected function name, found: ", other),
                    ),
                );
            },
        };
        let lparen = match self.next_token() {
            Some(t) => t,
            None => {
                return Err(
                    CompilationError::new(
                        func.line(),
                        func.col(),
                        String::from_str("Expected '(', found EOF"),
                    ),
                );
            },
        };
        match lparen.borrow_token() {
            Token::LeftParen => {},
            other => {
                return Err(
                    CompilationError::new(
                        lparen.line(),
                        lparen.col(),
                        message_with_token("Expected '(', found: ", other),
                    ),
                );
            },
        }
        let args = match self.parse_call_args() {
            Ok(a) => a,
            Err(e) => {
                return Err(e);
            },
        };
        match self.next_token() {
            Some(rbracket) => match rbracket.borrow_token() {
                Token::RightBracket => Ok(ExternalFunctionCall::new(func_name.clone(), args)),
                other => Err(
                    CompilationError::new(
                        rbracket.line(),
                        rbracket.col(),
                        message_with_token("Expected '}', found: ", other),
                    ),
                ),
            },
            None => Err(
                CompilationError::new(
                    func.line(),
                    func.col(),
                    String::from_str("Expected '}', found EOF"),
                ),
            ),
        }
    }

    /// The arguments of a call, after its '(', up to and including ')'.
    fn parse_call_args(&mut self) -> (r: Result<Vec<CallArg>, CompilationError>)
        ensures
            match r {
                Ok(v) => call_args_from(old(self).pending(), CallSeek::Start, seq![]).0 == Ok::<
                    Seq<crate::ast::CallArgModel>,
                    ErrorModel,
                >(call_arg_models(v@)),
                Err(e) => call_args_from(old(self).pending(), CallSeek::Start, seq![]).0 == Err::<
                    Seq<crate::ast::CallArgModel>,
                    ErrorModel,
                >(e@),
            },
            final(self).pending() == call_args_from(old(self).pending(), CallSeek::Start, seq![]).1,
    {
        let ghost ts0 = self.pending();
        let mut args: Vec<CallArg> = Vec::new();
        let mut state: CallSeek = CallSeek::Start;
        assert(call_arg_models(args@) =~= Seq::<crate::ast::CallArgModel>::empty());
        loop
            invariant
                ts0 == old(self).pending(),
                call_args_from(self.pending(), state, call_arg_models(args@)) == call_args_from(
                    ts0,
                    CallSeek::Start,
                    seq![],
                ),
            decreases self.pending().len(),
        {
            let ghost before = call_arg_models(args@);
            let token = match self.next_token() {
                Some(t) => t,
                None => {
                    return Ok(args);
                },
            };
            match token.borrow_token() {
                Token::RightParen => {
                    if state == CallSeek::SeekArg {
                        return Err(
                            CompilationError::new(
                                token.line(),
                                token.col(),
                                String::from_str("Expected argument, found ')'"),
                            ),
                        );
                    } else {
                        return Ok(args);
                    }
                },
                Token::Identifier(arg) => {
                    if state == CallSeek::SeekArg {
                        args.push(CallArg::Var(arg.clone()));
                        assert(call_arg_models(args@) =~= before.push(args@.last()@));
                        state = CallSeek::SeekComma;
                    } else {
                        return Err(
                            CompilationError::new(
                                token.line(),
                                token.col(),
                                message_with_token(
                                    "Unexpected token in call expression: ",
                                    token.borrow_token(),
                                ),
                            ),
                        );
                    }
                },
                Token::Dollar => {
                    if state == CallSeek::SeekComma {
                        return Err(
                            CompilationError::new(
                                token.line(),
                                token.col(),
                                message_with_token(
                                    "Unexpected token in call expression: ",
                                    token.borrow_token(),
                                ),
                            ),
                        );
                    } else {
                        args.push(CallArg::Dollar);
                        assert(call_arg_models(args@) =~= before.push(args@.last()@));
                        state = CallSeek::SeekComma;
                    }
                },
                Token::Comma => {
                    if state == CallSeek::SeekComma {
                        state = CallSeek::SeekArg;
                    } else {
                        return Err(
                            CompilationError::new(
                                token.line(),
                                token.col(),
                                message_with_token(
                                    "Unexpected token in call expression: ",
                                    token.borrow_token(),
                                ),
                            ),
                        );
                    }
                },
                unexpected => {
                    return Err(
                        CompilationError::new(
                            token.line(),
                            token.col(),
                            message_with_token("Unexpected token in call expression: ", unexpected),
                        ),
                    );
                },
            }
        }
    }

    /// The body of an ISR: '{', then '}' or a call.
    fn parse_isr_body(&mut self, last_line: u32, last_column: u32) -> (r: Result<
        Option<ExternalFunctionCall>,
        CompilationError,
    >)
        ensures
            body_result_model(r) == isr_body_spec(old(self).pending(), last_line, last_column).0,
            final(self).pending() == isr_body_spec(old(self).pending(), last_line, last_column).1,
    {
        match self.next_token() {
            Some(lbracket) => match lbracket.borrow_token() {
                Token::LeftBracket => match self.next_token() {
                    Some(remaining) => match remaining.borrow_token() {
                        Token::KeywordCall => match self.parse_function_call(
                            remaining.line(),
                            remaining.col(),
                        ) {
                            Ok(c) => Ok(Some(c)),
                            Err(e) => Err(e),
                        },
                        Token::RightBracket => Ok(None),
                        other => Err(
                            CompilationError::new(
                                remaining.line(),
                                remaining.col(),
                                message_with_token(
                                    "Expected call expression or closing '}', found: ",
                                    other,
                                ),
                            ),
                        ),
                    },
                    None => Err(
                        CompilationError::new(
                            lbracket.line(),
                            lbracket.col(),
                            String::from_str("Expected call expression or closing '}', found EOF"),
                        ),
                    ),
                },
                other_token => Err(
                    CompilationError::new(
                        lbracket.line(),
                        lbracket.col(),
                        message_with_token("Expected opening '{', found: ", other_token),
                    ),
                ),
            },
            None => Err(
                CompilationError::new(
                    last_line,
                    last_column,
                    String::from_str("Expected opening '{', found EOF"),
                ),
            ),
        }
    }
}

impl Parser {
    /// An optional privilege clause, read where the next token is
    /// `WithLevel`.
    fn parse_optional_withlevel(&mut self, last_line: u32, last_col: u32) -> (r: Result<
        Option<Ring>,
        CompilationError,
    >)
        ensures
            match r {
                Ok(p) => crate::grammar::optional_withlevel(
                    old(self).pending(),
                    last_line,
                    last_col,
                ).0 == Ok::<Option<Ring>, ErrorModel>(p),
                Err(e) => crate::grammar::optional_withlevel(
                    old(self).pending(),
                    last_line,
                    last_col,
                ).0 == Err::<Option<Ring>, ErrorModel>(e@),
            },
            final(self).pending() == crate::grammar::optional_withlevel(
                old(self).pending(),
                last_line,
                last_col,
            ).1,
    {
        if self.next_is_with_level() {
            match self.parse_withlevel(last_line, last_col) {
                Ok(level) => Ok(Some(level)),
                Err(e) => Err(e),
            }
        } else {
            Ok(None)
        }
    }

    /// An external function declaration after its `extern` keyword, which
    /// stands at `last_line` and `last_col`.
    fn parse_extern(&mut self, last_line: u32, last_col: u32) -> (r: Result<
        ExternalFunctionNode,
        CompilationError,
    >)
        ensures
            result_model(r) == extern_spec(old(self).pending(), last_line, last_col).0,
            final(self).pending() == extern_spec(old(self).pending(), last_line, last_col).1,
    {
        match self.next_token() {
            Some(func) => match func.borrow_token() {
                Token::Identifier(func_name) => match self.next_token() {
                    Some(lparen) => match lparen.borrow_token() {
                        Token::LeftParen => {
                            let args = match self.parse_func_args() {
                                Ok(a) => a,
                                Err(e) => {
                                    return Err(e);
                                },
                            };
                            let privilege = match self.parse_optional_withlevel(
                                lparen.line(),
                                lparen.col(),
                            ) {
                                Ok(p) => p,
                                Err(e) => {
                                    return Err(e);
                                },
                            };
                            Ok(ExternalFunctionNode::new(func_name.clone(), args, privilege))
                        },
                        other_token => Err(
                            CompilationError::new(
                                lparen.line(),
                                lparen.col(),
                                message_with_token(
                                    "Expected '(' after extern declaration, found: ",
                                    other_token,
                                ),
                            ),
                        ),
                    },
                    None => Err(
                        CompilationError::new(
                            func.line(),
                            func.col(),
                            String::from_str("Expected '(' after extern declaration, found EOF"),
                        ),
                    ),
                },
                other_token => Err(
                    CompilationError::new(
                        func.line(),
                        func.col(),
                        message_with_token(
                            "Expected function name after extern declaration, found: ",
                            other_token,
                        ),
                    ),
                ),
            },
            None => Err(
                CompilationError::new(
                    last_line,
                    last_col,
                    String::from_str("Expected function name after extern declaration, found EOF"),
                ),
            ),
        }
    }

    /// An ISR after its `isr` keyword, which stands at `last_line` and
    /// `last_column`.
    fn parse_isr(&mut self, last_line: u32, last_column: u32) -> (r: Result<
        IsrNode,
        CompilationError,
    >)
        ensures
            result_model(r) == isr_spec(old(self).pending(), last_line, last_column).0,
            final(self).pending() == isr_spec(old(self).pending(), last_line, last_column).1,
    {
        let name = match self.next_token() {
            Some(t) => t,
            None => {
                return Err(
                    CompilationError::new(
                        last_line,
                        last_column,
                        String::from_str("Expected ISR name, found EOF"),
                    ),
                );
            },
        };
        let isr_name = match name.borrow_token() {
            Token::Identifier(n) => n,
            other_token => {
                return Err(
                    CompilationError::new(
                        name.line(),
                        name.col(),
                        message_with_token("Expected ISR name, found: ", other_token),
                    ),
                );
            },
        };
        let lparen = match self.next_token() {
            Some(t) => t,
            None => {
                return Err(
                    CompilationError::new(
                        name.line(),
                        name.col(),
                        String::from_str("Expected '(' after Isr name, found EOF"),
                    ),
                );
            },
        };
        match lparen.borrow_token() {
            Token::LeftParen => {},
            other_token => {
                return Err(
                    CompilationError::new(
                        lparen.line(),
                        lparen.col(),
                        message_with_token("Expected '(' after Isr name, found: ", other_token),
                    ),
                );
            },
        }
        let num = match self.next_token() {
            Some(t) => t,
            None => {
                return Err(CompilationError::new(lparen.line(), lparen.col(), String::from_str("Expected an Isr number, found EOF")));
            },
        };
        let isr_num_str = match num.borrow_token() {
            Token::Identifier(n) => n,
            other_token => {
                return Err(
                    CompilationError::new(
                        num.line(),
                        num.col(),
                        message_with_token("Expected an Isr number, found: ", other_token),
                    ),
                );
            },
        };
        // Isr numbers above 255 are rare.
        let isr_num: u8 = match parse_u8(isr_num_str.as_str()) {
            Ok(n) => n,
            Err(e) => {
                let mut d = String::from_str("Expected numeric value, failed with: ");
                let why = e.message();
                d.append(why.as_str());
                return Err(CompilationError::new(num.line(), num.col(), d));
            },
        };
        match self.next_token() {
            Some(rparen) => match rparen.borrow_token() {
                Token::RightParen => {},
                other_token => {
                    return Err(
                        CompilationError::new(
                            rparen.line(),
                            rparen.col(),
                            message_with_token("Expected closing ')', found: ", other_token),
                        ),
                    );
                },
            },
            None => {
                return Err(
                    CompilationError::new(
                        num.line(),
                        num.col(),
                        String::from_str("Expected closing ')', found EOF"),
                    ),
                );
            },
        }
        let privilege = match self.parse_optional_withlevel(num.line(), num.col()) {
            Ok(p) => p,
            Err(e) => {
                return Err(e);
            },
        };
        let calling_func = match self.parse_isr_body(num.line(), num.col()) {
            Ok(c) => c,
            Err(e) => {
                return Err(e);
            },
        };
        Ok(IsrNode::new(isr_name.clone(), isr_num, privilege, calling_func))
    }

    /// Parses the next top-level item: `None` when no tokens are left.
    pub fn parse_ingot(&mut self) -> (r: Option<Result<Ingot, CompilationError>>)
        ensures
            match r {
                None => old(self).pending().len() == 0 && final(self).pending() == old(
                    self,
                ).pending(),
                Some(res) => {
                    &&& old(self).pending().len() > 0
                    &&& result_model(res) == ingot_spec(old(self).pending()).0
                    &&& final(self).pending() == ingot_spec(old(self).pending()).1
                },
            },
    {
        let token = match self.next_token() {
            Some(t) => t,
            None => {
                return None;
            },
        };
        match token.borrow_token() {
            Token::KeywordExtern => match self.parse_extern(token.line(), token.col()) {
                Ok(ext) => Some(Ok(Ingot::ExternalFunction(ext))),
                Err(e) => Some(Err(e)),
            },
            Token::KeywordIsr => match self.parse_isr(token.line(), token.col()) {
                Ok(isr) => Some(Ok(Ingot::Isr(isr))),
                Err(e) => Some(Err(e)),
            },
            other => Some(
                Err(
                    CompilationError::new(
                        token.line(),
                        token.col(),
                        message_with_token("Expected the start of an Ingot, got ", other),
                    ),
                ),
            ),
        }
    }

    /// Parses all the remaining tokens into a syntax tree, stopping at the
    /// first error.
    pub fn run(&mut self) -> (r: Result<Ast, CompilationError>)
        ensures
            ast_result_model(r) == parse_tokens(old(self).pending()).0,
            final(self).pending() == parse_tokens(old(self).pending()).1,
    {
        let ghost ts0 = self.pending();
        let mut ast_vec: Vec<Ingot> = Vec::new();
        assert(ingot_models(ast_vec@) =~= Seq::<IngotModel>::empty());
        loop
            invariant
                ts0 == old(self).pending(),
                items_from(self.pending(), ingot_models(ast_vec@)) == items_from(ts0, seq![]),
            decreases self.pending().len(),
        {
            let ghost before = ingot_models(ast_vec@);
            proof {
                if self.pending().len() > 0 {
                    crate::grammar::lemma_ingot_shrink(self.pending());
                }
            }
            match self.parse_ingot() {
                None => {
                    return Ok(Ast::new(ast_vec));
                },
                Some(Ok(ingot)) => {
                    ast_vec.push(ingot);
                    assert(ingot_models(ast_vec@) =~= before.push(ast_vec@.last()@));
                },
                Some(Err(e)) => {
                    return Err(e);
                },
            }
        }
    }
}

/// `prefix` followed by the rendering of `t`.
fn message_with_token(prefix: &str, t: &Token) -> (r: String)
    ensures
        r@ == prefix@ + crate::token::token_text(t@),
{
    let mut d = String::from_str(prefix);
    let shown = t.to_display_string();
    d.append(shown.as_str());
    d
}

/// The C type that a type name stands for.
fn c_type_of(s: &String) -> (r: Option<FuncArgType>)
    ensures
        r == c_type(s@),
{
    if *s == String::from_str("u8") {
        Some(FuncArgType::U8)
    } else if *s == String::from_str("i8") {
        Some(FuncArgType::I8)
    } else if *s == String::from_str("u16") {
        Some(FuncArgType::U16)
    } else if *s == String::from_str("i16") {
        Some(FuncArgType::I16)
    } else if *s == String::from_str("u32") {
        Some(FuncArgType::U32)
    } else if *s == String::from_str("i32") {
        Some(FuncArgType::I32)
    } else if *s == String::from_str("u64") {
        Some(FuncArgType::U64)
    } else if *s == String::from_str("i64") {
        Some(FuncArgType::I64)
    } else {
        None
    }
}

} // verus!
