//! Tokens: the lexemes of an Anillo source file, with their positions.

use vstd::prelude::*;

use crate::ring::{ring_text, Ring};
use crate::text::{decimal, push_decimal};

verus! {

/// The fundamental unit of a source code file. These are used to represent
/// the _lexemes_ within a source file.
#[derive(Debug)]
pub enum Token {
    KeywordExtern,
    KeywordWithLevel,
    KeywordPrivilege(Ring),
    KeywordIsr,
    KeywordCall,
    Identifier(String),
    LeftParen,
    RightParen,
    LeftBracket,
    RightBracket,
    Comma,
    /// '$' is a special Anillo token only allowed within an ISR. It directly
    /// refers to the number of the ISR itself.
    Dollar,
}

/// A token as a plain value.
pub enum TokenModel {
    KeywordExtern,
    KeywordWithLevel,
    KeywordPrivilege(Ring),
    KeywordIsr,
    KeywordCall,
    Identifier(Seq<char>),
    LeftParen,
    RightParen,
    LeftBracket,
    RightBracket,
    Comma,
    Dollar,
}

impl View for Token {
    type V = TokenModel;

    open spec fn view(&self) -> TokenModel {
        match self {
            Token::KeywordExtern => TokenModel::KeywordExtern,
            Token::KeywordWithLevel => TokenModel::KeywordWithLevel,
            Token::KeywordPrivilege(r) => TokenModel::KeywordPrivilege(*r),
            Token::KeywordIsr => TokenModel::KeywordIsr,
            Token::KeywordCall => TokenModel::KeywordCall,
            Token::Identifier(s) => TokenModel::Identifier(s@),
            Token::LeftParen => TokenModel::LeftParen,
            Token::RightParen => TokenModel::RightParen,
            Token::LeftBracket => TokenModel::LeftBracket,
            Token::RightBracket => TokenModel::RightBracket,
            Token::Comma => TokenModel::Comma,
            Token::Dollar => TokenModel::Dollar,
        }
    }
}

/// The rendering of a token, as the compiler's messages show it.
pub open spec fn token_text(t: TokenModel) -> Seq<char> {
    match t {
        TokenModel::KeywordExtern => "Token::KeywordExtern"@,
        TokenModel::KeywordWithLevel => "Token::KeywordWithLevel"@,
        TokenModel::KeywordPrivilege(p) => "Token::KeywordPrivilege("@ + ring_text(p) + ")"@,
        TokenModel::KeywordIsr => "Token::KeywordIsr"@,
        TokenModel::KeywordCall => "Token::KeywordCall"@,
        TokenModel::Identifier(id) => "Token::Identifier("@ + id + ")"@,
        TokenModel::LeftParen => "Token::LeftParen"@,
        TokenModel::RightParen => "Token::RightParen"@,
        TokenModel::LeftBracket => "Token::LeftBracket"@,
        TokenModel::RightBracket => "Token::RightBracket"@,
        TokenModel::Comma => "Token::Comma"@,
        TokenModel::Dollar => "Token::Dollar"@,
    }
}

impl Token {
    /// The rendering of this token, such as `Token::Identifier(main)`.
    pub fn to_display_string(&self) -> (r: String)
        ensures
            r@ == token_text(self@),
    {
        match self {
            Token::KeywordExtern => String::from_str("Token::KeywordExtern"),
            Token::KeywordWithLevel => String::from_str("Token::KeywordWithLevel"),
            Token::KeywordPrivilege(p) => {
                let mut s = String::from_str("Token::KeywordPrivilege(");
                let pr = p.to_display_string();
                s.append(pr.as_str());
                s.append(")");
                s
            },
            Token::KeywordIsr => String::from_str("Token::KeywordIsr"),
            Token::KeywordCall => String::from_str("Token::KeywordCall"),
            Token::Identifier(id) => {
                let mut s = String::from_str("Token::Identifier(");
                s.append(id.as_str());
                s.append(")");
                s
            },
            Token::LeftParen => String::from_str("Token::LeftParen"),
            Token::RightParen => String::from_str("Token::RightParen"),
            Token::LeftBracket => String::from_str("Token::LeftBracket"),
            Token::RightBracket => String::from_str("Token::RightBracket"),
            Token::Comma => String::from_str("Token::Comma"),
            Token::Dollar => String::from_str("Token::Dollar"),
        }
    }
}

/// A token with its line and column, as plain values.
pub struct TokenInfoModel {
    pub token: TokenModel,
    pub line: u32,
    pub col: u32,
}

/// A small wrapper around a `Token` that also contains line and column info.
/// This just lets the lexer and parser output meaningful error messages so
/// a user knows where a mistake may have been made.
#[derive(Debug)]
pub struct TokenInfo {
    token: Token,
    line: u32,
    col: u32,
}

impl View for TokenInfo {
    type V = TokenInfoModel;

    closed spec fn view(&self) -> TokenInfoModel {
        TokenInfoModel { token: self.token@, line: self.line, col: self.col }
    }
}

/// The models of a sequence of tokens.
pub open spec fn token_models(ts: Seq<TokenInfo>) -> Seq<TokenInfoModel> {
    ts.map_values(|t: TokenInfo| t@)
}

/// The rendering of a token with its position.
pub open spec fn token_info_text(t: TokenInfoModel) -> Seq<char> {
    "TokenInfo {token = "@ + token_text(t.token) + ", line = "@ + decimal(t.line as nat)
        + ", col = "@ + decimal(t.col as nat) + "}"@
}

impl TokenInfo {
    pub fn new(token: Token, line: u32, col: u32) -> (r: TokenInfo)
        ensures
            r@ == (TokenInfoModel { token: token@, line, col }),
    {
        TokenInfo { token, line, col }
    }

    /// Simply used to directly pattern match on the internal `token` field.
    pub fn borrow_token(&self) -> (r: &Token)
        ensures
            r@ == self@.token,
    {
        &self.token
    }

    pub fn line(&self) -> (r: u32)
        ensures
            r == self@.line,
    {
        self.line
    }

    pub fn col(&self) -> (r: u32)
        ensures
            r == self@.col,
    {
        self.col
    }

    /// The rendering of this token with its position.
    pub fn to_display_string(&self) -> (r: String)
        ensures
            r@ == token_info_text(self@),
    {
        let mut s = String::from_str("TokenInfo {token = ");
        let t = self.token.to_display_string();
        s.append(t.as_str());
        s.append(", line = ");
        push_decimal(&mut s, self.line as u64);
        s.append(", col = ");
        push_decimal(&mut s, self.col as u64);
        s.append("}");
        s
    }
}

} // verus!
