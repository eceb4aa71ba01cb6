//! The reserved words of the schema language and their recognition.

use crate::text::{chars_of, folds_to, matches_word};
use crate::token::{Token, TokenView};
use vstd::prelude::*;

verus! {

/// The type of a column. The numbers are the arguments that follow the type's
/// name in parentheses: precision and scale, or a length.
#[derive(Debug, Clone, Copy, PartialEq, Eq, Structural)]
pub enum ColumnType {
    Integer,
    Numeric(usize, usize),
    Timestamp,
    Char(usize),
    Varchar(usize),
}

impl ColumnType {
    /// Whether the type's name is followed by arguments in parentheses.
    pub open spec fn spec_takes_arguments(&self) -> bool {
        self is Numeric || self is Char || self is Varchar
    }

    /// Whether the type's name is followed by arguments in parentheses.
    #[verifier::when_used_as_spec(spec_takes_arguments)]
    pub fn takes_arguments(&self) -> (r: bool)
        ensures
            r == self.spec_takes_arguments(),
    {
        match self {
            ColumnType::Numeric(_, _) | ColumnType::Char(_) | ColumnType::Varchar(_) => true,
            _ => false,
        }
    }
}

/// A reserved word. The vocabulary is closed, and matched without regard to
/// the case of ASCII letters.
#[derive(Debug, Clone, Copy, PartialEq, Eq, Structural)]
pub enum SqlKeyword {
    Primary,
    Key,
    Create,
    Table,
    Index,
    On,
    TypeKeyword(ColumnType),
    Not,
    Null,
}

impl SqlKeyword {
    /// The reserved word that `text` reads as, if any. A type's name gives
    /// the type with its arguments at zero.
    pub open spec fn of_text(text: Seq<char>) -> Option<SqlKeyword> {
        if folds_to(text, "primary"@) {
            Some(SqlKeyword::Primary)
        } else if folds_to(text, "key"@) {
            Some(SqlKeyword::Key)
        } else if folds_to(text, "create"@) {
            Some(SqlKeyword::Create)
        } else if folds_to(text, "table"@) {
            Some(SqlKeyword::Table)
        } else if folds_to(text, "index"@) {
            Some(SqlKeyword::Index)
        } else if folds_to(text, "on"@) {
            Some(SqlKeyword::On)
        } else if folds_to(text, "integer"@) {
            Some(SqlKeyword::TypeKeyword(ColumnType::Integer))
        } else if folds_to(text, "timestamp"@) {
            Some(SqlKeyword::TypeKeyword(ColumnType::Timestamp))
        } else if folds_to(text, "numeric"@) {
            Some(SqlKeyword::TypeKeyword(ColumnType::Numeric(0, 0)))
        } else if folds_to(text, "not"@) {
            Some(SqlKeyword::Not)
        } else if folds_to(text, "null"@) {
            Some(SqlKeyword::Null)
        } else if folds_to(text, "char"@) {
            Some(SqlKeyword::TypeKeyword(ColumnType::Char(0)))
        } else if folds_to(text, "varchar"@) {
            Some(SqlKeyword::TypeKeyword(ColumnType::Varchar(0)))
        } else {
            None
        }
    }

    /// The reserved word that a token reads as. Only an identifier can read
    /// as one.
    pub open spec fn of_token(tok: TokenView) -> Option<SqlKeyword> {
        match tok {
            TokenView::Ident(text) => Self::of_text(text),
            _ => None,
        }
    }

    /// Classifies a token: the reserved word it reads as, or `None`.
    pub fn parse_keywords(tok: &Token) -> (r: Option<SqlKeyword>)
        ensures
            r == Self::of_token(tok@),
    {
        match tok {
            Token::Ident(s) => {
                let text = chars_of(s.as_str());
                if matches_word(&text, "primary") {
                    Some(SqlKeyword::Primary)
                } else if matches_word(&text, "key") {
                    Some(SqlKeyword::Key)
                } else if matches_word(&text, "create") {
                    Some(SqlKeyword::Create)
                } else if matches_word(&text, "table") {
                    Some(SqlKeyword::Table)
                } else if matches_word(&text, "index") {
                    Some(SqlKeyword::Index)
                } else if matches_word(&text, "on") {
                    Some(SqlKeyword::On)
                } else if matches_word(&text, "integer") {
                    Some(SqlKeyword::TypeKeyword(ColumnType::Integer))
                } else if matches_word(&text, "timestamp") {
                    Some(SqlKeyword::TypeKeyword(ColumnType::Timestamp))
                } else if matches_word(&text, "numeric") {
                    Some(SqlKeyword::TypeKeyword(ColumnType::Numeric(0, 0)))
                } else if matches_word(&text, "not") {
                    Some(SqlKeyword::Not)
                } else if matches_word(&text, "null") {
                    Some(SqlKeyword::Null)
                } else if matches_word(&text, "char") {
                    Some(SqlKeyword::TypeKeyword(ColumnType::Char(0)))
                } else if matches_word(&text, "varchar") {
                    Some(SqlKeyword::TypeKeyword(ColumnType::Varchar(0)))
                } else {
                    None
                }
            },
            _ => None,
        }
    }

    /// Whether a token reads as exactly this reserved word.
    pub fn is_keyword(tok: &Token, keyword: SqlKeyword) -> (r: bool)
        ensures
            r == (Self::of_token(tok@) == Some(keyword)),
    {
        match Self::parse_keywords(tok) {
            Some(k) => k == keyword,
            None => false,
        }
    }
}

} // verus!
