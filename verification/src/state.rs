//! The states of the schema parser.

use crate::keyword::ColumnType;
use vstd::prelude::*;

verus! {

/// Where the parser stands in the grammar. A state that refines a column's
/// type carries that type. `Error` is final: it carries the message of the
/// failure and is never advanced.
#[derive(Debug, PartialEq, Eq)]
pub enum ParserState {
    Init,
    Create,
    Table,
    CreateTableBegin,
    CreateTableEnd,
    TableName,
    Primary,
    Index,
    IndexName,
    IndexTableName,
    IndexColumns,
    IndexColumnBegin,
    IndexColumnName,
    IndexEnd,
    Key,
    KeyListBegin,
    KeyName,
    KeyListEnd,
    AttributeName,
    AttributeType(ColumnType),
    AttributeTypeArgs(ColumnType),
    AttributeTypeArgsEnd,
    AttributeEnd,
    NumericBegin,
    NumericValue1,
    NumericSeparator,
    NumericValue2,
    NumericEnd,
    Not,
    Null,
    Separator,
    Semicolon,
    Error(String),
}

impl ParserState {
    /// The state's name, as messages show it: the variant without what it
    /// carries.
    pub open spec fn spec_name(&self) -> Seq<char> {
        match self {
            ParserState::Init => "Init"@,
            ParserState::Create => "Create"@,
            ParserState::Table => "Table"@,
            ParserState::CreateTableBegin => "CreateTableBegin"@,
            ParserState::CreateTableEnd => "CreateTableEnd"@,
            ParserState::TableName => "TableName"@,
            ParserState::Primary => "Primary"@,
            ParserState::Index => "Index"@,
            ParserState::IndexName => "IndexName"@,
            ParserState::IndexTableName => "IndexTableName"@,
            ParserState::IndexColumns => "IndexColumns"@,
            ParserState::IndexColumnBegin => "IndexColumnBegin"@,
            ParserState::IndexColumnName => "IndexColumnName"@,
            ParserState::IndexEnd => "IndexEnd"@,
            ParserState::Key => "Key"@,
            ParserState::KeyListBegin => "KeyListBegin"@,
            ParserState::KeyName => "KeyName"@,
            ParserState::KeyListEnd => "KeyListEnd"@,
            ParserState::AttributeName => "AttributeName"@,
            ParserState::AttributeType(_) => "AttributeType"@,
            ParserState::AttributeTypeArgs(_) => "AttributeTypeArgs"@,
            ParserState::AttributeTypeArgsEnd => "AttributeTypeArgsEnd"@,
            ParserState::AttributeEnd => "AttributeEnd"@,
            ParserState::NumericBegin => "NumericBegin"@,
            ParserState::NumericValue1 => "NumericValue1"@,
            ParserState::NumericSeparator => "NumericSeparator"@,
            ParserState::NumericValue2 => "NumericValue2"@,
            ParserState::NumericEnd => "NumericEnd"@,
            ParserState::Not => "Not"@,
            ParserState::Null => "Null"@,
            ParserState::Separator => "Separator"@,
            ParserState::Semicolon => "Semicolon"@,
            ParserState::Error(_) => "Error"@,
        }
    }

    /// The state's name, as messages show it.
    pub fn name(&self) -> (r: &'static str)
        ensures
            r@ == self.spec_name(),
    {
        match self {
            ParserState::Init => "Init",
            ParserState::Create => "Create",
            ParserState::Table => "Table",
            ParserState::CreateTableBegin => "CreateTableBegin",
            ParserState::CreateTableEnd => "CreateTableEnd",
            ParserState::TableName => "TableName",
            ParserState::Primary => "Primary",
            ParserState::Index => "Index",
            ParserState::IndexName => "IndexName",
            ParserState::IndexTableName => "IndexTableName",
            ParserState::IndexColumns => "IndexColumns",
            ParserState::IndexColumnBegin => "IndexColumnBegin",
            ParserState::IndexColumnName => "IndexColumnName",
            ParserState::IndexEnd => "IndexEnd",
            ParserState::Key => "Key",
            ParserState::KeyListBegin => "KeyListBegin",
            ParserState::KeyName => "KeyName",
            ParserState::KeyListEnd => "KeyListEnd",
            ParserState::AttributeName => "AttributeName",
            ParserState::AttributeType(_) => "AttributeType",
            ParserState::AttributeTypeArgs(_) => "AttributeTypeArgs",
            ParserState::AttributeTypeArgsEnd => "AttributeTypeArgsEnd",
            ParserState::AttributeEnd => "AttributeEnd",
            ParserState::NumericBegin => "NumericBegin",
            ParserState::NumericValue1 => "NumericValue1",
            ParserState::NumericSeparator => "NumericSeparator",
            ParserState::NumericValue2 => "NumericValue2",
            ParserState::NumericEnd => "NumericEnd",
            ParserState::Not => "Not",
            ParserState::Null => "Null",
            ParserState::Separator => "Separator",
            ParserState::Semicolon => "Semicolon",
            ParserState::Error(_) => "Error",
        }
    }

    /// Whether the state lies inside a table definition, from the table's
    /// name to its closing parenthesis. In such a state the schema has a
    /// relation to which columns are added.
    pub open spec fn in_table(&self) -> bool {
        match self {
            ParserState::TableName
            | ParserState::CreateTableBegin
            | ParserState::CreateTableEnd
            | ParserState::Primary
            | ParserState::Key
            | ParserState::KeyListBegin
            | ParserState::KeyName
            | ParserState::KeyListEnd
            | ParserState::AttributeName
            | ParserState::AttributeType(_)
            | ParserState::AttributeTypeArgs(_)
            | ParserState::AttributeTypeArgsEnd
            | ParserState::Not
            | ParserState::Null
            | ParserState::Separator => true,
            _ => false,
        }
    }

    /// Whether a parse may end in this state: before the first statement or
    /// after a statement's semicolon.
    pub open spec fn spec_accepting(&self) -> bool {
        self is Init || self is Semicolon
    }

    /// Whether a parse may end in this state.
    #[verifier::when_used_as_spec(spec_accepting)]
    pub fn accepting(&self) -> (r: bool)
        ensures
            r == self.spec_accepting(),
    {
        match self {
            ParserState::Init | ParserState::Semicolon => true,
            _ => false,
        }
    }
}

} // verus!
