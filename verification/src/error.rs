//! The error that every compiler stage reports.

use vstd::prelude::*;

use crate::text::{decimal, push_decimal};

verus! {

/// What a `CompilationError` holds, as plain values.
pub struct ErrorModel {
    pub line: u32,
    pub column: u32,
    pub diagnostic: Seq<char>,
    pub src_available: bool,
}

/// An error at a source position (or without one), with a message for the
/// user.
#[derive(Debug)]
pub struct CompilationError {
    line: u32,
    column: u32,
    diagnostic: String,
    src_available: bool,
}

/// An error at `line` and `column` of the source.
pub open spec fn error_at(line: u32, column: u32, diagnostic: Seq<char>) -> ErrorModel {
    ErrorModel { line, column, diagnostic, src_available: true }
}

/// An error that no source position is known for.
pub open spec fn error_without_src(diagnostic: Seq<char>) -> ErrorModel {
    ErrorModel { line: 0, column: 0, diagnostic, src_available: false }
}

/// The one-line rendering of an error.
pub open spec fn error_text(e: ErrorModel) -> Seq<char> {
    "CompilationError: {line = "@ + decimal(e.line as nat) + ", column = "@ + decimal(
        e.column as nat,
    ) + ", diagnostic = "@ + e.diagnostic + "}"@
}

/// The detailed rendering of an error: the one-line rendering, and a note
/// when no source position is known.
pub open spec fn error_detail_text(e: ErrorModel) -> Seq<char> {
    if e.src_available {
        error_text(e)
    } else {
        error_text(e) + "\n(Source info unavaliable)"@
    }
}

impl View for CompilationError {
    type V = ErrorModel;

    closed spec fn view(&self) -> ErrorModel {
        ErrorModel {
            line: self.line,
            column: self.column,
            diagnostic: self.diagnostic@,
            src_available: self.src_available,
        }
    }
}

impl CompilationError {
    pub fn new(line: u32, column: u32, diagnostic: String) -> (r: CompilationError)
        ensures
            r@ == error_at(line, column, diagnostic@),
    {
        CompilationError { line, column, diagnostic, src_available: true }
    }

    pub fn new_without_src_info(diagnostic: String) -> (r: CompilationError)
        ensures
            r@ == error_without_src(diagnostic@),
    {
        CompilationError { line: 0, column: 0, diagnostic, src_available: false }
    }

    pub fn line(&self) -> (r: u32)
        ensures
            r == self@.line,
    {
        self.line
    }

    pub fn column(&self) -> (r: u32)
        ensures
            r == self@.column,
    {
        self.column
    }

    pub fn diagnostic(&self) -> (r: &str)
        ensures
            r@ == self@.diagnostic,
    {
        self.diagnostic.as_str()
    }

    pub fn src_available(&self) -> (r: bool)
        ensures
            r == self@.src_available,
    {
        self.src_available
    }

    /// The one-line rendering of this error.
    pub fn to_display_string(&self) -> (r: String)
        ensures
            r@ == error_text(self@),
    {
        let mut s = String::from_str("CompilationError: {line = ");
        push_decimal(&mut s, self.line as u64);
        s.append(", column = ");
        push_decimal(&mut s, self.column as u64);
        s.append(", diagnostic = ");
        s.append(self.diagnostic.as_str());
        s.append("}");
        s
    }

    /// The detailed rendering of this error, which notes a missing source
    /// position.
    pub fn to_debug_string(&self) -> (r: String)
        ensures
            r@ == error_detail_text(self@),
    {
        let mut s = self.to_display_string();
        if !self.src_available {
            s.append("\n(Source info unavaliable)");
        }
        s
    }
}

} // verus!
