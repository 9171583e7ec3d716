//! The Anillo lexer: from the bytes of a source file to tokens.

use vstd::prelude::*;

use std::collections::VecDeque;

use crate::error::{error_at, CompilationError, ErrorModel};
use crate::ring::Ring;
use crate::text::push_char;
use crate::token::{token_models, Token, TokenInfo, TokenInfoModel, TokenModel};

verus! {

/// Where the lexer stands after some bytes: the tokens so far, the
/// characters of the word being read, and the current line and column.
pub struct LexState {
    pub tokens: Seq<TokenInfoModel>,
    pub buf: Seq<char>,
    pub line: int,
    pub col: int,
}

/// The state before the first byte: line 1, column 1.
pub open spec fn lex_start() -> LexState {
    LexState { tokens: Seq::empty(), buf: Seq::empty(), line: 1, col: 1 }
}

/// The ASCII whitespace bytes: space, tab, line feed, form feed, carriage
/// return.
pub open spec fn is_space_byte(b: u8) -> bool {
    b == 32 || b == 9 || b == 10 || b == 12 || b == 13
}

/// The ASCII letters and digits.
pub open spec fn is_word_byte(b: u8) -> bool {
    (48 <= b && b <= 57) || (65 <= b && b <= 90) || (97 <= b && b <= 122)
}

/// The token of a word: a keyword where the word is one, else an identifier
/// (numbers too are identifiers at this stage).
pub open spec fn word_token(w: Seq<char>) -> TokenModel {
    if w == "extern"@ {
        TokenModel::KeywordExtern
    } else if w == "WithLevel"@ {
        TokenModel::KeywordWithLevel
    } else if w == "User"@ {
        TokenModel::KeywordPrivilege(Ring::User)
    } else if w == "Super"@ {
        TokenModel::KeywordPrivilege(Ring::Super)
    } else if w == "isr"@ {
        TokenModel::KeywordIsr
    } else if w == "call"@ {
        TokenModel::KeywordCall
    } else {
        TokenModel::Identifier(w)
    }
}

/// Each punctuation character is the token of the same name, and no byte is
/// at once punctuation, whitespace and part of a word.
pub proof fn lemma_punctuation_tokens(b: u8)
    ensures
        punct_token('(' as u8) == Some(TokenModel::LeftParen),
        punct_token(')' as u8) == Some(TokenModel::RightParen),
        punct_token('{' as u8) == Some(TokenModel::LeftBracket),
        punct_token('}' as u8) == Some(TokenModel::RightBracket),
        punct_token(',' as u8) == Some(TokenModel::Comma),
        punct_token('$' as u8) == Some(TokenModel::Dollar),
        is_space_byte(' ' as u8) && is_space_byte('\t' as u8) && is_space_byte('\n' as u8)
            && is_space_byte('\r' as u8),
        is_word_byte(b) <==> (('0' as u8 <= b && b <= '9' as u8) || ('A' as u8 <= b && b
            <= 'Z' as u8) || ('a' as u8 <= b && b <= 'z' as u8)),
        !(punct_token(b) is Some && is_space_byte(b)),
        !(punct_token(b) is Some && is_word_byte(b)),
        !(is_space_byte(b) && is_word_byte(b)),
{
}

/// A word is a keyword only when it is exactly one of the six keywords; any
/// other word, however it begins, is an identifier holding that word.
pub proof fn lemma_keywords_exact(w: Seq<char>)
    ensures
        word_token(w) is Identifier <==> !(w == "extern"@ || w == "WithLevel"@ || w == "User"@ || w
            == "Super"@ || w == "isr"@ || w == "call"@),
        word_token(w) matches TokenModel::Identifier(v) ==> v == w,
        w == "extern"@ ==> word_token(w) == TokenModel::KeywordExtern,
        w == "WithLevel"@ ==> word_token(w) == TokenModel::KeywordWithLevel,
        w == "User"@ ==> word_token(w) == TokenModel::KeywordPrivilege(Ring::User),
        w == "Super"@ ==> word_token(w) == TokenModel::KeywordPrivilege(Ring::Super),
        w == "isr"@ ==> word_token(w) == TokenModel::KeywordIsr,
        w == "call"@ ==> word_token(w) == TokenModel::KeywordCall,
{
    reveal_strlit("extern");
    reveal_strlit("WithLevel");
    reveal_strlit("User");
    reveal_strlit("Super");
    reveal_strlit("isr");
    reveal_strlit("call");
    assert("extern"@[0] == 'e' && "WithLevel"@[0] == 'W' && "User"@[0] == 'U' && "Super"@[0] == 'S'
        && "isr"@[0] == 'i' && "call"@[0] == 'c');
}

/// Ends the word being read, if any: its token takes the current position.
pub open spec fn drain(st: LexState) -> LexState {
    if st.buf.len() == 0 {
        st
    } else {
        LexState {
            tokens: st.tokens.push(
                TokenInfoModel { token: word_token(st.buf), line: st.line as u32, col: st.col as u32 },
            ),
            buf: Seq::empty(),
            ..st
        }
    }
}

/// Appends a punctuation token at the current position.
pub open spec fn emit(st: LexState, t: TokenModel) -> LexState {
    LexState {
        tokens: st.tokens.push(TokenInfoModel { token: t, line: st.line as u32, col: st.col as u32 }),
        ..st
    }
}

/// The token of a punctuation byte.
pub open spec fn punct_token(b: u8) -> Option<TokenModel> {
    if b == 40 {
        Some(TokenModel::LeftParen)
    } else if b == 123 {
        Some(TokenModel::LeftBracket)
    } else if b == 41 {
        Some(TokenModel::RightParen)
    } else if b == 125 {
        Some(TokenModel::RightBracket)
    } else if b == 44 {
        Some(TokenModel::Comma)
    } else if b == 36 {
        Some(TokenModel::Dollar)
    } else {
        None
    }
}

/// One byte of input. Punctuation advances the column, ends the word being
/// read and is a token of its own; whitespace ends the word being read (a
/// line feed first moves to the next line, column 0); a letter or digit
/// extends the word; any other byte is an error at the next column.
pub open spec fn lex_step(st: LexState, b: u8) -> Result<LexState, ErrorModel> {
    if punct_token(b) is Some {
        Ok(emit(drain(LexState { col: st.col + 1, ..st }), punct_token(b)->0))
    } else if is_space_byte(b) {
        if b == 10 {
            Ok(drain(LexState { line: st.line + 1, col: 0, ..st }))
        } else {
            Ok(drain(LexState { col: st.col + 1, ..st }))
        }
    } else if is_word_byte(b) {
        Ok(LexState { col: st.col + 1, buf: st.buf.push(b as char), ..st })
    } else {
        Err(
            error_at(
                st.line as u32,
                (st.col + 1) as u32,
                "Unrecognized character type: "@.push(b as char),
            ),
        )
    }
}

/// The state after the bytes `bs`, or the first error.
pub open spec fn lex_prefix(bs: Seq<u8>) -> Result<LexState, ErrorModel>
    decreases bs.len(),
{
    if bs.len() == 0 {
        Ok(lex_start())
    } else {
        match lex_prefix(bs.drop_last()) {
            Ok(st) => lex_step(st, bs.last()),
            Err(e) => Err(e),
        }
    }
}

/// The tokens of `bs`, or the first error. A word that the input ends in is
/// ended there too: its token takes the position after its last character.
pub open spec fn lex(bs: Seq<u8>) -> Result<Seq<TokenInfoModel>, ErrorModel> {
    match lex_prefix(bs) {
        Ok(st) => Ok(drain(st).tokens),
        Err(e) => Err(e),
    }
}

/// How many bytes of `bs` the lexer reads: all of them, or up to and
/// including the first byte that is an error.
pub open spec fn lex_read_len(bs: Seq<u8>) -> nat
    decreases bs.len(),
{
    if bs.len() == 0 {
        0
    } else if lex_prefix(bs.drop_last()) is Err {
        lex_read_len(bs.drop_last())
    } else {
        bs.len()
    }
}

/// The lexer state that the running values stand for.
pub open spec fn state_of(tokens: Seq<TokenInfo>, buf: Seq<char>, line: u32, col: u32) -> LexState {
    LexState { tokens: token_models(tokens), buf, line: line as int, col: col as int }
}

proof fn lemma_lex_bounds(bs: Seq<u8>)
    ensures
        lex_prefix(bs) matches Ok(st) ==> (1 <= st.line <= 1 + bs.len() && 0 <= st.col <= 1
            + bs.len()),
    decreases bs.len(),
{
    if bs.len() > 0 {
        lemma_lex_bounds(bs.drop_last());
    }
}

proof fn lemma_lex_error_sticks(bs: Seq<u8>, k: int)
    requires
        0 <= k <= bs.len(),
        lex_prefix(bs.take(k)) is Err,
    ensures
        lex_prefix(bs) == lex_prefix(bs.take(k)),
        lex_read_len(bs) == lex_read_len(bs.take(k)),
    decreases bs.len(),
{
    if k == bs.len() {
        assert(bs.take(k) =~= bs);
    } else {
        assert(bs.drop_last().take(k) =~= bs.take(k));
        lemma_lex_error_sticks(bs.drop_last(), k);
    }
}

/// The bytes that the lexer accepts: punctuation, whitespace, and ASCII
/// letters and digits.
pub open spec fn is_known_byte(b: u8) -> bool {
    punct_token(b) is Some || is_space_byte(b) || is_word_byte(b)
}

/// Lexing fails exactly on input that holds a byte it does not accept, and
/// the error comes from the first such byte: the lexer reads up to and
/// including it, and every byte before it is accepted.
pub proof fn lemma_lex_fails_only_on_unknown_bytes(bs: Seq<u8>)
    ensures
        lex(bs) is Ok <==> forall|i: int| 0 <= i < bs.len() ==> is_known_byte(#[trigger] bs[i]),
        forall|b: u8| 128 <= b ==> !is_known_byte(b),
        lex(bs) is Ok ==> lex_read_len(bs) == bs.len(),
        lex(bs) is Err ==> {
            &&& 0 < lex_read_len(bs) <= bs.len()
            &&& !is_known_byte(bs[lex_read_len(bs) - 1])
            &&& forall|i: int| 0 <= i < lex_read_len(bs) - 1 ==> is_known_byte(#[trigger] bs[i])
        },
    decreases bs.len(),
{
    if bs.len() > 0 {
        let front = bs.drop_last();
        lemma_lex_fails_only_on_unknown_bytes(front);
        assert forall|i: int| 0 <= i < front.len() implies front[i] == bs[i] by {}
        if lex(front) is Ok {
            if !is_known_byte(bs.last()) {
                assert(!is_known_byte(bs[bs.len() - 1]));
            }
        } else {
            assert(!is_known_byte(front[lex_read_len(front) - 1]));
        }
    }
}

proof fn lemma_committed_tokens_grow(bs: Seq<u8>, k: int)
    requires
        0 <= k <= bs.len(),
        lex_prefix(bs) is Ok,
    ensures
        lex_prefix(bs.take(k)) is Ok,
        lex_prefix(bs.take(k))->Ok_0.tokens.len() <= lex_prefix(bs)->Ok_0.tokens.len(),
        lex_prefix(bs.take(k))->Ok_0.tokens == lex_prefix(bs)->Ok_0.tokens.take(
            lex_prefix(bs.take(k))->Ok_0.tokens.len() as int,
        ),
    decreases bs.len(),
{
    if k == bs.len() {
        assert(bs.take(k) =~= bs);
    } else {
        let front = bs.drop_last();
        assert(front.take(k) =~= bs.take(k));
        let st = lex_prefix(front)->Ok_0;
        lemma_committed_tokens_grow(front, k);
        let t = lex_prefix(bs)->Ok_0.tokens;
        assert(st.tokens =~= t.take(st.tokens.len() as int));
        let small = lex_prefix(bs.take(k))->Ok_0.tokens;
        assert(small =~= t.take(small.len() as int));
    }
}

/// The lexer does not look ahead: the tokens it has emitted after a prefix
/// of the input (all but the word it may be reading) stay, unchanged and
/// first, in what it returns for the whole input, and a prefix of an input
/// that lexes without error lexes without error too.
pub proof fn lemma_lex_no_lookahead(bs: Seq<u8>, k: int)
    requires
        0 <= k <= bs.len(),
        lex(bs) is Ok,
    ensures
        lex(bs.take(k)) is Ok,
        lex_prefix(bs.take(k))->Ok_0.tokens.len() <= lex(bs)->Ok_0.len(),
        lex_prefix(bs.take(k))->Ok_0.tokens == lex(bs)->Ok_0.take(
            lex_prefix(bs.take(k))->Ok_0.tokens.len() as int,
        ),
{
    lemma_committed_tokens_grow(bs, k);
    let whole = lex_prefix(bs)->Ok_0;
    let small = lex_prefix(bs.take(k))->Ok_0.tokens;
    assert(whole.tokens =~= drain(whole).tokens.take(whole.tokens.len() as int));
    assert(small =~= drain(whole).tokens.take(small.len() as int));
}

/// The Anillo Lexer.
///
/// The Anillo Lexer is purposefully simple. Lexemes (or Tokens here) are only
/// delimited by whitespace and "Special Characters" (punctuation like
/// brackets, or special semantic tokens like '$').
pub struct Lexer {
    source: Vec<u8>,
    pos: usize,
}

impl Lexer {
    #[verifier::type_invariant]
    spec fn position_in_source(&self) -> bool {
        self.pos <= self.source@.len()
    }

    /// The bytes that are still to be read.
    pub closed spec fn remaining(&self) -> Seq<u8> {
        self.source@.skip(self.pos as int)
    }

    /// A lexer that reads `source` from its first byte.
    pub fn new(source: Vec<u8>) -> (r: Lexer)
        ensures
            r.remaining() == source@,
    {
        let r = Lexer { source, pos: 0 };
        assert(r.source@.skip(0) =~= r.source@);
        r
    }

    /// Eagerly lex the rest of the source and return the buffer of
    /// `TokenInfo`s. There is no look ahead at this level; an error comes
    /// only from a byte that is neither whitespace, punctuation, nor an ASCII
    /// letter or digit. The lexer reads up to and including such a byte.
    pub fn tokenize(&mut self) -> (r: Result<VecDeque<TokenInfo>, CompilationError>)
        requires
            old(self).remaining().len() < u32::MAX,
        ensures
            match r {
                Ok(ts) => lex(old(self).remaining()) == Ok::<
                    Seq<TokenInfoModel>,
                    ErrorModel,
                >(token_models(ts@)),
                Err(e) => lex(old(self).remaining()) == Err::<Seq<TokenInfoModel>, ErrorModel>(e@),
            },
            final(self).remaining() == old(self).remaining().skip(
                lex_read_len(old(self).remaining()) as int,
            ),
    {
        proof {
            use_type_invariant(&*self);
        }
        let ghost bs = self.remaining();
        let ghost start = self.pos as int;
        let mut tokens: VecDeque<TokenInfo> = VecDeque::new();
        let mut buf: String = String::new();
        let mut line: u32 = 1;
        let mut col: u32 = 1;
        let len: usize = self.source.len();
        assert(bs.take(0) =~= Seq::<u8>::empty());
        assert(token_models(tokens@) =~= Seq::<TokenInfoModel>::empty());
        while self.pos < len
            invariant
                len == self.source@.len(),
                0 <= start <= self.pos <= len,
                bs == self.source@.skip(start),
                bs == old(self).remaining(),
                bs.len() < u32::MAX,
                lex_prefix(bs.take(self.pos - start)) == Ok::<LexState, ErrorModel>(
                    state_of(tokens@, buf@, line, col),
                ),
                lex_read_len(bs.take(self.pos - start)) == self.pos - start,
            decreases len - self.pos,
        {
            let ghost i = self.pos - start;
            proof {
                lemma_lex_bounds(bs.take(i));
                assert(bs.take(i + 1).drop_last() =~= bs.take(i));
                assert(bs.take(i + 1).last() == bs[i]);
            }
            let b: u8 = self.source[self.pos];
            assert(b == bs[i]);
            self.pos = self.pos + 1;
            if b == 40 || b == 123 || b == 41 || b == 125 || b == 44 || b == 36 {
                col = col + 1;
                Self::drain(&mut tokens, &mut buf, line, col);
                let t: Token = if b == 40 {
                    Token::LeftParen
                } else if b == 123 {
                    Token::LeftBracket
                } else if b == 41 {
                    Token::RightParen
                } else if b == 125 {
                    Token::RightBracket
                } else if b == 44 {
                    Token::Comma
                } else {
                    Token::Dollar
                };
                let ghost mid = tokens@;
                tokens.push_back(TokenInfo::new(t, line, col));
                assert(token_models(tokens@) =~= token_models(mid).push(tokens@.last()@));
            } else if b == 32 || b == 9 || b == 10 || b == 12 || b == 13 {
                if b == 10 {
                    line = line + 1;
                    col = 0;
                } else {
                    col = col + 1;
                }
                Self::drain(&mut tokens, &mut buf, line, col);
            } else if (48 <= b && b <= 57) || (65 <= b && b <= 90) || (97 <= b && b <= 122) {
                col = col + 1;
                push_char(&mut buf, b as char);
            } else {
                col = col + 1;
                let mut d = String::from_str("Unrecognized character type: ");
                push_char(&mut d, b as char);
                proof {
                    assert(lex_prefix(bs.take(i + 1)) == lex_step(
                        state_of(tokens@, buf@, line, (col - 1) as u32),
                        b,
                    ));
                    assert(lex_read_len(bs.take(i + 1)) == i + 1);
                    lemma_lex_error_sticks(bs, i + 1);
                    assert(self.source@.skip(self.pos as int) =~= bs.skip(i + 1));
                }
                let e = CompilationError::new(line, col, d);
                assert(lex(bs) == Err::<Seq<TokenInfoModel>, ErrorModel>(e@));
                assert(self.remaining() == bs.skip(lex_read_len(bs) as int));
                return Err(e);
            }
        }
        assert(bs.take(len - start) =~= bs);
        Self::drain(&mut tokens, &mut buf, line, col);
        Ok(tokens)
    }

    /// Ends the word in `buf`, if any, as a token at `line` and `col`.
    fn drain(tokens: &mut VecDeque<TokenInfo>, buf: &mut String, line: u32, col: u32)
        ensures
            state_of(final(tokens)@, final(buf)@, line, col) == drain(
                state_of(old(tokens)@, old(buf)@, line, col),
            ),
    {
        if !buf.as_str().is_empty() {
            let t = Self::parse_str(buf.as_str());
            let ghost before = tokens@;
            tokens.push_back(TokenInfo::new(t, line, col));
            assert(token_models(tokens@) =~= token_models(before).push(tokens@.last()@));
            *buf = String::new();
        }
    }

    /// Helper function for `tokenize`: keywords become their own tokens,
    /// everything else an identifier (even numbers); the parser converts
    /// those to their expected types.
    fn parse_str(tok: &str) -> (r: Token)
        ensures
            r@ == word_token(tok@),
    {
        let s = String::from_str(tok);
        if s == String::from_str("extern") {
            Token::KeywordExtern
        } else if s == String::from_str("WithLevel") {
            Token::KeywordWithLevel
        } else if s == String::from_str("User") {
            Token::KeywordPrivilege(Ring::User)
        } else if s == String::from_str("Super") {
            Token::KeywordPrivilege(Ring::Super)
        } else if s == String::from_str("isr") {
            Token::KeywordIsr
        } else if s == String::from_str("call") {
            Token::KeywordCall
        } else {
            Token::Identifier(s)
        }
    }
}

} // verus!
