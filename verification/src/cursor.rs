//! A cursor over a token stream, with the keyword tests that the parser
//! makes at its current token.

use crate::keyword::{ColumnType, SqlKeyword};
use crate::token::{token_at, views, Token, TokenView};
use vstd::prelude::*;

verus! {

/// The position after `pos` has been consumed. The end of the stream is
/// never passed.
pub open spec fn advanced(tokens: Seq<TokenView>, pos: int) -> int {
    if token_at(tokens, pos) is Eof {
        pos
    } else {
        pos + 1
    }
}

/// A token stream and a position in it. The token at the position is the
/// lookahead: the next token that has not been consumed. The stream ends at
/// its last token or at an end-of-stream token, whichever comes first.
pub struct Parser {
    tokens: Vec<Token>,
    pos: usize,
}

impl Parser {
    /// The tokens of the stream, consumed or not.
    pub closed spec fn tokens(&self) -> Seq<TokenView> {
        views(self.tokens@)
    }

    /// How many tokens have been consumed.
    pub closed spec fn pos(&self) -> int {
        self.pos as int
    }

    /// The lookahead.
    pub open spec fn lookahead(&self) -> TokenView {
        token_at(self.tokens(), self.pos())
    }

    /// A cursor at the start of `tokens`.
    pub fn new(tokens: Vec<Token>) -> (r: Parser)
        ensures
            r.tokens() == views(tokens@),
            r.pos() == 0,
    {
        Parser { tokens, pos: 0 }
    }

    /// How many tokens have been consumed.
    pub fn position(&self) -> (r: usize)
        ensures
            r == self.pos(),
    {
        self.pos
    }

    /// The lookahead, or `None` past the last token.
    pub fn peek(&self) -> (r: Option<&Token>)
        ensures
            match r {
                Some(t) => 0 <= self.pos() < self.tokens().len() && t@ == self.lookahead(),
                None => self.pos() >= self.tokens().len(),
            },
    {
        if self.pos < self.tokens.len() {
            Some(&self.tokens[self.pos])
        } else {
            None
        }
    }

    /// Whether the stream is at its end.
    pub fn at_eof(&self) -> (r: bool)
        ensures
            r == (self.lookahead() is Eof),
    {
        match self.peek() {
            Some(Token::Eof) => true,
            Some(_) => false,
            None => true,
        }
    }

    /// Whether the lookahead is the token `tok`.
    pub fn check(&self, tok: &Token) -> (r: bool)
        ensures
            r == (self.lookahead() == tok@),
    {
        match self.peek() {
            Some(t) => t.same(tok),
            None => tok.same(&Token::Eof),
        }
    }

    /// The lookahead as it is written in source text.
    pub fn this_token_to_string(&self) -> (r: String)
        ensures
            r@ == self.lookahead().text(),
    {
        match self.peek() {
            Some(t) => t.to_text(),
            None => Token::Eof.to_text(),
        }
    }

    /// Consumes the lookahead, unless the stream is at its end.
    pub fn bump(&mut self)
        ensures
            final(self).tokens() == old(self).tokens(),
            final(self).pos() == advanced(old(self).tokens(), old(self).pos()),
    {
        if self.pos < self.tokens.len() && !self.at_eof() {
            self.pos = self.pos + 1;
        }
    }

    /// Consumes the lookahead if it is the token `tok`, and says whether it
    /// was.
    pub fn eat(&mut self, tok: &Token) -> (r: bool)
        ensures
            r == (old(self).lookahead() == tok@),
            final(self).tokens() == old(self).tokens(),
            final(self).pos() == if r {
                advanced(old(self).tokens(), old(self).pos())
            } else {
                old(self).pos()
            },
    {
        if self.check(tok) {
            self.bump();
            true
        } else {
            false
        }
    }

    /// Whether the lookahead reads as exactly the reserved word `keyword`.
    /// Consumes nothing.
    pub fn is_sql_keyword(&self, keyword: SqlKeyword) -> (r: bool)
        ensures
            r == (SqlKeyword::of_token(self.lookahead()) == Some(keyword)),
    {
        match self.peek() {
            Some(t) => SqlKeyword::is_keyword(t, keyword),
            None => false,
        }
    }

    /// Consumes the lookahead if it reads as the reserved word `keyword`,
    /// and says whether it did.
    pub fn eat_sql_keyword(&mut self, keyword: SqlKeyword) -> (r: bool)
        ensures
            r == (SqlKeyword::of_token(old(self).lookahead()) == Some(keyword)),
            final(self).tokens() == old(self).tokens(),
            final(self).pos() == if r {
                old(self).pos() + 1
            } else {
                old(self).pos()
            },
    {
        if self.is_sql_keyword(keyword) {
            self.bump();
            true
        } else {
            false
        }
    }

    /// Consumes the lookahead if it reads as the name of a column type, and
    /// returns that type.
    pub fn eat_sql_type_keyword(&mut self) -> (r: Option<ColumnType>)
        ensures
            r == match SqlKeyword::of_token(old(self).lookahead()) {
                Some(SqlKeyword::TypeKeyword(ty)) => Some(ty),
                _ => None,
            },
            final(self).tokens() == old(self).tokens(),
            final(self).pos() == if r is Some {
                old(self).pos() + 1
            } else {
                old(self).pos()
            },
    {
        let word = match self.peek() {
            Some(t) => SqlKeyword::parse_keywords(t),
            None => None,
        };
        match word {
            Some(SqlKeyword::TypeKeyword(ty)) => {
                self.bump();
                Some(ty)
            },
            _ => None,
        }
    }
}

} // verus!
