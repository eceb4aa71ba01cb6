//! Lexical tokens, as a lexer hands them to the parser.

use crate::text::{decimal, decimal_string};
use vstd::prelude::*;
use vstd::string::StringExecFns;

verus! {

/// One lexical token. Keywords are not a class of their own: a keyword is an
/// identifier whose text happens to read as one.
#[derive(Debug, PartialEq, Eq)]
pub enum Token {
    /// An identifier, by its text.
    Ident(String),
    /// A string literal, by its contents without the quotes.
    Str(String),
    /// An integer literal, by its value.
    Int(u64),
    /// `(`
    LParen,
    /// `)`
    RParen,
    /// `,`
    Comma,
    /// `;`
    Semi,
    /// Any other token, by its text. No rule of the grammar accepts it.
    Other(String),
    /// The end of the stream.
    Eof,
}

/// The mathematical value of a [`Token`].
pub enum TokenView {
    Ident(Seq<char>),
    Str(Seq<char>),
    Int(u64),
    LParen,
    RParen,
    Comma,
    Semi,
    Other(Seq<char>),
    Eof,
}

impl View for Token {
    type V = TokenView;

    open spec fn view(&self) -> TokenView {
        match self {
            Token::Ident(s) => TokenView::Ident(s@),
            Token::Str(s) => TokenView::Str(s@),
            Token::Int(n) => TokenView::Int(*n),
            Token::LParen => TokenView::LParen,
            Token::RParen => TokenView::RParen,
            Token::Comma => TokenView::Comma,
            Token::Semi => TokenView::Semi,
            Token::Other(s) => TokenView::Other(s@),
            Token::Eof => TokenView::Eof,
        }
    }
}

impl TokenView {
    /// The token as it is written in source text and shown in messages.
    pub open spec fn text(self) -> Seq<char> {
        match self {
            TokenView::Ident(s) => s,
            TokenView::Str(s) => "\""@ + s + "\""@,
            TokenView::Int(n) => decimal(n as nat),
            TokenView::LParen => "("@,
            TokenView::RParen => ")"@,
            TokenView::Comma => ","@,
            TokenView::Semi => ";"@,
            TokenView::Other(s) => s,
            TokenView::Eof => "<eof>"@,
        }
    }
}

impl Clone for Token {
    fn clone(&self) -> (r: Token)
        ensures
            r@ == self@,
    {
        match self {
            Token::Ident(s) => Token::Ident(s.clone()),
            Token::Str(s) => Token::Str(s.clone()),
            Token::Int(n) => Token::Int(*n),
            Token::LParen => Token::LParen,
            Token::RParen => Token::RParen,
            Token::Comma => Token::Comma,
            Token::Semi => Token::Semi,
            Token::Other(s) => Token::Other(s.clone()),
            Token::Eof => Token::Eof,
        }
    }
}

impl Token {
    /// Whether the two tokens are the same token.
    pub fn same(&self, other: &Token) -> (r: bool)
        ensures
            r == (self@ == other@),
    {
        match (self, other) {
            (Token::Ident(a), Token::Ident(b)) => *a == *b,
            (Token::Str(a), Token::Str(b)) => *a == *b,
            (Token::Int(a), Token::Int(b)) => *a == *b,
            (Token::LParen, Token::LParen) => true,
            (Token::RParen, Token::RParen) => true,
            (Token::Comma, Token::Comma) => true,
            (Token::Semi, Token::Semi) => true,
            (Token::Other(a), Token::Other(b)) => *a == *b,
            (Token::Eof, Token::Eof) => true,
            _ => false,
        }
    }

    /// The token as it is written in source text and shown in messages.
    pub fn to_text(&self) -> (r: String)
        ensures
            r@ == self@.text(),
    {
        match self {
            Token::Ident(s) => s.clone(),
            Token::Str(s) => {
                let mut r = String::from_str("\"");
                r.append(s.as_str());
                r.append("\"");
                r
            },
            Token::Int(n) => decimal_string(*n),
            Token::LParen => String::from_str("("),
            Token::RParen => String::from_str(")"),
            Token::Comma => String::from_str(","),
            Token::Semi => String::from_str(";"),
            Token::Other(s) => s.clone(),
            Token::Eof => String::from_str("<eof>"),
        }
    }
}

/// The mathematical values of a run of tokens.
pub open spec fn views(tokens: Seq<Token>) -> Seq<TokenView> {
    tokens.map_values(|t: Token| t@)
}

/// The token at `pos` in `tokens`; past the last token, the end of the stream.
pub open spec fn token_at(tokens: Seq<TokenView>, pos: int) -> TokenView {
    if 0 <= pos < tokens.len() {
        tokens[pos]
    } else {
        TokenView::Eof
    }
}

} // verus!
