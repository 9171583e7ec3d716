//! Anillo: lexer, parser and semantic checks for the Anillo interrupt
//! description language, with the C code generator for its registration
//! routine.
//!
//! The stages run in order: `Lexer::tokenize` turns the bytes of a source
//! file into tokens, `Parser::run` turns the tokens into an `Ast`,
//! `Ast::verify` checks the tree, and `CompilerC` writes C code from it.

pub mod ast;
pub mod compilerc;
pub mod error;
pub mod grammar;
pub mod lexer;
pub mod parser;
pub mod ring;
pub mod text;
pub mod token;

pub use ast::{
    Ast, CallArg, ExternalFunctionCall, ExternalFunctionNode, FuncArg, FuncArgType, Ingot, IsrNode,
};
pub use compilerc::CompilerC;
pub use error::CompilationError;
pub use lexer::Lexer;
pub use parser::Parser;
pub use ring::Ring;
pub use token::{Token, TokenInfo};
