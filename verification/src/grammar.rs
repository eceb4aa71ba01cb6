//! The grammar of a `CREATE TABLE` statement, as descriptions of well-formed
//! statements and the tokens that write them, and what the parser makes of
//! such statements.
//!
//! A description keeps every reserved word as it is spelled, since a word is
//! recognised whatever the case of its letters.

use crate::keyword::{ColumnType, SqlKeyword};
use crate::laws::{fails_at_end, law_truncated_input_fails, lemma_run_step};
use crate::parser::{parse, run, SyntaxErrorView};
use crate::schema::{with_column, with_relation, RelationView};
use crate::state::ParserState;
use crate::text::capitalized;
use crate::token::{token_at, TokenView};
use vstd::prelude::*;

verus! {

/// A column's type as written: the type's name and the integer literals
/// that follow it in parentheses.
pub struct TypeDef {
    pub word: Seq<char>,
    pub args: Seq<u64>,
}

/// A column definition: `name type [NOT NULL]`.
pub struct ColumnDef {
    pub name: Seq<char>,
    pub ty: TypeDef,
    /// The words `NOT` and `NULL` as written, where the column has them.
    pub not_null: Option<(Seq<char>, Seq<char>)>,
}

/// A primary key clause: `PRIMARY KEY ( name {, name} )`.
pub struct KeyDef {
    pub primary: Seq<char>,
    pub key: Seq<char>,
    pub names: Seq<Seq<char>>,
}

/// One item of a table's parenthesised list.
pub enum TableItem {
    Column(ColumnDef),
    Key(KeyDef),
}

/// A statement: `CREATE TABLE name ( item {, item} ) ;`.
pub struct TableDef {
    pub create: Seq<char>,
    pub table: Seq<char>,
    pub name: Seq<char>,
    /// Whether the name is written as a string literal.
    pub quoted: bool,
    pub items: Seq<TableItem>,
}

impl TypeDef {
    /// The type that the word names.
    pub open spec fn kind(self) -> Option<ColumnType> {
        match SqlKeyword::of_text(self.word) {
            Some(SqlKeyword::TypeKeyword(ty)) => Some(ty),
            _ => None,
        }
    }

    /// The word names a type, and the type has its arguments: two for
    /// `NUMERIC`, one for `CHAR` and `VARCHAR`, none for the others.
    pub open spec fn well_formed(self) -> bool {
        match self.kind() {
            Some(ColumnType::Integer) | Some(ColumnType::Timestamp) => self.args.len() == 0,
            Some(ColumnType::Numeric(_, _)) => self.args.len() == 2,
            Some(ColumnType::Char(_)) | Some(ColumnType::Varchar(_)) => self.args.len() == 1,
            None => false,
        }
    }

    /// The tokens that write the type.
    pub open spec fn tokens(self) -> Seq<TokenView> {
        if self.args.len() == 0 {
            seq![TokenView::Ident(self.word)]
        } else if self.args.len() == 1 {
            seq![
                TokenView::Ident(self.word),
                TokenView::LParen,
                TokenView::Int(self.args[0]),
                TokenView::RParen,
            ]
        } else {
            seq![
                TokenView::Ident(self.word),
                TokenView::LParen,
                TokenView::Int(self.args[0]),
                TokenView::Comma,
                TokenView::Int(self.args[1]),
                TokenView::RParen,
            ]
        }
    }
}

impl ColumnDef {
    /// The name does not read as `PRIMARY`, which would open a key clause;
    /// the type is well formed; the not-null clause reads `NOT NULL`.
    pub open spec fn well_formed(self) -> bool {
        &&& SqlKeyword::of_text(self.name) != Some(SqlKeyword::Primary)
        &&& self.ty.well_formed()
        &&& match self.not_null {
            Some((not, null)) => {
                &&& SqlKeyword::of_text(not) == Some(SqlKeyword::Not)
                &&& SqlKeyword::of_text(null) == Some(SqlKeyword::Null)
            },
            None => true,
        }
    }

    /// The tokens that write the not-null clause; none where the column
    /// has no such clause.
    pub open spec fn not_null_tokens(self) -> Seq<TokenView> {
        match self.not_null {
            Some((not, null)) => seq![TokenView::Ident(not), TokenView::Ident(null)],
            None => Seq::empty(),
        }
    }

    /// The tokens that write the column definition.
    pub open spec fn tokens(self) -> Seq<TokenView> {
        seq![TokenView::Ident(self.name)] + self.ty.tokens() + self.not_null_tokens()
    }
}

/// The tokens of a list of names with `,` between them.
pub open spec fn name_list(names: Seq<Seq<char>>) -> Seq<TokenView>
    decreases names.len(),
{
    if names.len() == 0 {
        Seq::empty()
    } else if names.len() == 1 {
        seq![TokenView::Ident(names[0])]
    } else {
        seq![TokenView::Ident(names[0]), TokenView::Comma] + name_list(names.drop_first())
    }
}

impl KeyDef {
    /// The words read `PRIMARY KEY`, and at least one column is named.
    pub open spec fn well_formed(self) -> bool {
        &&& SqlKeyword::of_text(self.primary) == Some(SqlKeyword::Primary)
        &&& SqlKeyword::of_text(self.key) == Some(SqlKeyword::Key)
        &&& self.names.len() >= 1
    }

    /// The tokens that write the key clause.
    pub open spec fn tokens(self) -> Seq<TokenView> {
        seq![TokenView::Ident(self.primary), TokenView::Ident(self.key), TokenView::LParen]
            + name_list(self.names) + seq![TokenView::RParen]
    }
}

impl TableItem {
    /// The item is a well-formed column definition or key clause.
    pub open spec fn well_formed(self) -> bool {
        match self {
            TableItem::Column(c) => c.well_formed(),
            TableItem::Key(k) => k.well_formed(),
        }
    }

    /// The tokens that write the item.
    pub open spec fn tokens(self) -> Seq<TokenView> {
        match self {
            TableItem::Column(c) => c.tokens(),
            TableItem::Key(k) => k.tokens(),
        }
    }
}

/// The tokens of a list of items with `,` between them.
pub open spec fn item_list(items: Seq<TableItem>) -> Seq<TokenView>
    decreases items.len(),
{
    if items.len() == 0 {
        Seq::empty()
    } else if items.len() == 1 {
        items[0].tokens()
    } else {
        items[0].tokens() + seq![TokenView::Comma] + item_list(items.drop_first())
    }
}

/// The names of the columns among `items`, in the order of the items.
pub open spec fn column_names(items: Seq<TableItem>) -> Seq<Seq<char>>
    decreases items.len(),
{
    if items.len() == 0 {
        Seq::empty()
    } else {
        match items[0] {
            TableItem::Column(c) => seq![c.name] + column_names(items.drop_first()),
            TableItem::Key(_) => column_names(items.drop_first()),
        }
    }
}

impl TableDef {
    /// The words read `CREATE TABLE`, and the list holds at least one item,
    /// each of them well formed.
    pub open spec fn well_formed(self) -> bool {
        &&& SqlKeyword::of_text(self.create) == Some(SqlKeyword::Create)
        &&& SqlKeyword::of_text(self.table) == Some(SqlKeyword::Table)
        &&& self.items.len() >= 1
        &&& forall|i: int| 0 <= i < self.items.len() ==> (#[trigger] self.items[i]).well_formed()
    }

    /// The token that writes the table's name.
    pub open spec fn name_token(self) -> TokenView {
        if self.quoted {
            TokenView::Str(self.name)
        } else {
            TokenView::Ident(self.name)
        }
    }

    /// The tokens that write the statement.
    pub open spec fn tokens(self) -> Seq<TokenView> {
        seq![
            TokenView::Ident(self.create),
            TokenView::Ident(self.table),
            self.name_token(),
            TokenView::LParen,
        ] + item_list(self.items) + seq![TokenView::RParen, TokenView::Semi]
    }

    /// The relation that the statement defines: the name with its first
    /// character in upper case, and the columns in the order in which they
    /// are declared.
    pub open spec fn relation(self) -> RelationView {
        RelationView { name: capitalized(self.name), columns: column_names(self.items) }
    }
}

/// Whether the tokens `part` stand in `tokens` from `pos` on.
pub open spec fn stands_at(tokens: Seq<TokenView>, pos: int, part: Seq<TokenView>) -> bool {
    &&& 0 <= pos
    &&& pos + part.len() <= tokens.len()
    &&& forall|j: int| 0 <= j < part.len() ==> tokens[pos + j] == #[trigger] part[j]
}

/// Where two runs of tokens stand one after the other, each of them stands
/// in its place.
proof fn lemma_stands_split(
    tokens: Seq<TokenView>,
    pos: int,
    head: Seq<TokenView>,
    tail: Seq<TokenView>,
)
    requires
        stands_at(tokens, pos, head + tail),
    ensures
        stands_at(tokens, pos, head),
        stands_at(tokens, pos + head.len(), tail),
{
    let whole = head + tail;
    assert forall|j: int| 0 <= j < head.len() implies tokens[pos + j] == #[trigger] head[j] by {
        assert(whole[j] == head[j]);
    }
    assert forall|j: int| 0 <= j < tail.len() implies tokens[pos + head.len() + j]
        == #[trigger] tail[j] by {
        assert(whole[head.len() + j] == tail[j]);
    }
}

/// `schema` with the columns `names` at the end of its last relation.
pub open spec fn with_columns(schema: Seq<RelationView>, names: Seq<Seq<char>>) -> Seq<
    RelationView,
>
    recommends
        schema.len() > 0,
{
    let last = schema.last();
    schema.update(schema.len() - 1, RelationView { name: last.name, columns: last.columns + names })
}

/// The state in which the machine stands after an item.
pub open spec fn state_after(item: TableItem) -> ParserState {
    match item {
        TableItem::Column(c) => if c.not_null is Some {
            ParserState::Null
        } else if c.ty.args.len() > 0 {
            ParserState::AttributeTypeArgsEnd
        } else {
            ParserState::AttributeType(c.ty.kind()->0)
        },
        TableItem::Key(_) => ParserState::KeyListEnd,
    }
}

/// Whether `state` is one in which an item of a table is complete: `,` then
/// leads to the next item and `)` closes the table.
pub open spec fn item_complete(state: ParserState) -> bool {
    match state {
        ParserState::Null | ParserState::KeyListEnd | ParserState::AttributeTypeArgsEnd => true,
        ParserState::AttributeType(ty) => !ty.takes_arguments(),
        _ => false,
    }
}

/// The machine reads a well-formed column definition from its first token
/// to its last, and adds the column.
proof fn lemma_run_column(
    tokens: Seq<TokenView>,
    state: ParserState,
    pos: int,
    schema: Seq<RelationView>,
    c: ColumnDef,
)
    requires
        state is CreateTableBegin || state is Separator,
        schema.len() > 0,
        c.well_formed(),
        stands_at(tokens, pos, c.tokens()),
    ensures
        run(tokens, state, pos, schema) == run(
            tokens,
            state_after(TableItem::Column(c)),
            pos + c.tokens().len(),
            with_column(schema, c.name),
        ),
        item_complete(state_after(TableItem::Column(c))),
{
    let named = with_column(schema, c.name);
    let ty = c.ty.kind()->0;
    let name_part = seq![TokenView::Ident(c.name)];
    let ty_part = c.ty.tokens();
    let nn_part = c.not_null_tokens();
    let n = ty_part.len() as int;
    lemma_stands_split(tokens, pos, name_part + ty_part, nn_part);
    lemma_stands_split(tokens, pos, name_part, ty_part);
    assert(tokens[pos + 0] == name_part[0]);
    assert(tokens[pos + 1 + 0] == ty_part[0]);
    lemma_run_step(tokens, state, pos, schema);
    lemma_run_step(tokens, ParserState::AttributeName, pos + 1, named);
    let typed = ParserState::AttributeType(ty);
    assert(run(tokens, state, pos, schema) == run(tokens, typed, pos + 2, named));
    if c.ty.args.len() == 1 {
        assert(tokens[pos + 1 + 1] == ty_part[1]);
        assert(tokens[pos + 1 + 2] == ty_part[2]);
        assert(tokens[pos + 1 + 3] == ty_part[3]);
        lemma_run_step(tokens, typed, pos + 2, named);
        lemma_run_step(tokens, ParserState::AttributeTypeArgs(ty), pos + 3, named);
        assert(run(tokens, state, pos, schema) == run(
            tokens,
            ParserState::AttributeTypeArgsEnd,
            pos + 5,
            named,
        ));
    } else if c.ty.args.len() == 2 {
        assert(tokens[pos + 1 + 1] == ty_part[1]);
        assert(tokens[pos + 1 + 2] == ty_part[2]);
        assert(tokens[pos + 1 + 3] == ty_part[3]);
        assert(tokens[pos + 1 + 4] == ty_part[4]);
        assert(tokens[pos + 1 + 5] == ty_part[5]);
        lemma_run_step(tokens, typed, pos + 2, named);
        lemma_run_step(tokens, ParserState::AttributeTypeArgs(ty), pos + 3, named);
        lemma_run_step(tokens, ParserState::AttributeTypeArgs(ty), pos + 5, named);
        assert(run(tokens, state, pos, schema) == run(
            tokens,
            ParserState::AttributeTypeArgsEnd,
            pos + 7,
            named,
        ));
    }
    let after_type = if c.ty.args.len() > 0 {
        ParserState::AttributeTypeArgsEnd
    } else {
        typed
    };
    assert(run(tokens, state, pos, schema) == run(tokens, after_type, pos + 1 + n, named));
    if c.not_null is Some {
        assert(tokens[pos + 1 + n + 0] == nn_part[0]);
        assert(tokens[pos + 1 + n + 1] == nn_part[1]);
        lemma_run_step(tokens, after_type, pos + 1 + n, named);
        lemma_run_step(tokens, ParserState::Not, pos + 1 + n + 1, named);
    }
}

/// The machine reads the names of a key clause, from the first name to the
/// closing parenthesis.
proof fn lemma_run_names(
    tokens: Seq<TokenView>,
    pos: int,
    schema: Seq<RelationView>,
    names: Seq<Seq<char>>,
)
    requires
        names.len() >= 1,
        stands_at(tokens, pos, name_list(names)),
        token_at(tokens, pos + name_list(names).len()) == TokenView::RParen,
    ensures
        run(tokens, ParserState::KeyListBegin, pos, schema) == run(
            tokens,
            ParserState::KeyListEnd,
            pos + name_list(names).len() + 1,
            schema,
        ),
    decreases names.len(),
{
    let part = name_list(names);
    lemma_run_step(tokens, ParserState::KeyListBegin, pos, schema);
    lemma_run_step(tokens, ParserState::KeyName, pos + 1, schema);
    if names.len() == 1 {
        assert(tokens[pos + 0] == part[0]);
    } else {
        let head = seq![TokenView::Ident(names[0]), TokenView::Comma];
        let rest = names.drop_first();
        lemma_stands_split(tokens, pos, head, name_list(rest));
        assert(tokens[pos + 0] == head[0]);
        assert(tokens[pos + 1] == head[1]);
        lemma_run_names(tokens, pos + 2, schema, rest);
    }
}

/// The machine reads a well-formed key clause from its first token to its
/// last, and keeps nothing of it.
proof fn lemma_run_key(
    tokens: Seq<TokenView>,
    state: ParserState,
    pos: int,
    schema: Seq<RelationView>,
    k: KeyDef,
)
    requires
        state is CreateTableBegin || state is Separator,
        k.well_formed(),
        stands_at(tokens, pos, k.tokens()),
    ensures
        run(tokens, state, pos, schema) == run(
            tokens,
            ParserState::KeyListEnd,
            pos + k.tokens().len(),
            schema,
        ),
{
    let head = seq![TokenView::Ident(k.primary), TokenView::Ident(k.key), TokenView::LParen];
    let names = name_list(k.names);
    let close = seq![TokenView::RParen];
    lemma_stands_split(tokens, pos, head + names, close);
    lemma_stands_split(tokens, pos, head, names);
    assert(tokens[pos + 0] == head[0]);
    assert(tokens[pos + 1] == head[1]);
    assert(tokens[pos + 2] == head[2]);
    assert(tokens[pos + 3 + names.len() + 0] == close[0]);
    lemma_run_step(tokens, state, pos, schema);
    lemma_run_step(tokens, ParserState::Primary, pos + 1, schema);
    lemma_run_step(tokens, ParserState::Key, pos + 2, schema);
    lemma_run_names(tokens, pos + 3, schema, k.names);
}

/// The schema after an item: a column is added, a key clause leaves it as
/// it is.
pub open spec fn schema_after(schema: Seq<RelationView>, item: TableItem) -> Seq<RelationView> {
    match item {
        TableItem::Column(c) => with_column(schema, c.name),
        TableItem::Key(_) => schema,
    }
}

/// The machine reads a well-formed item from its first token to its last.
proof fn lemma_run_item(
    tokens: Seq<TokenView>,
    state: ParserState,
    pos: int,
    schema: Seq<RelationView>,
    item: TableItem,
)
    requires
        state is CreateTableBegin || state is Separator,
        schema.len() > 0,
        item.well_formed(),
        stands_at(tokens, pos, item.tokens()),
    ensures
        run(tokens, state, pos, schema) == run(
            tokens,
            state_after(item),
            pos + item.tokens().len(),
            schema_after(schema, item),
        ),
        item_complete(state_after(item)),
{
    match item {
        TableItem::Column(c) => lemma_run_column(tokens, state, pos, schema, c),
        TableItem::Key(k) => lemma_run_key(tokens, state, pos, schema, k),
    }
}

/// Adding the columns of a list of items is adding the first item's column,
/// if it is one, and then those of the other items.
proof fn lemma_columns_after(schema: Seq<RelationView>, items: Seq<TableItem>)
    requires
        schema.len() > 0,
        items.len() >= 1,
    ensures
        with_columns(schema_after(schema, items[0]), column_names(items.drop_first()))
            == with_columns(schema, column_names(items)),
{
    let rest = column_names(items.drop_first());
    let last = schema.last();
    match items[0] {
        TableItem::Column(c) => {
            assert(last.columns.push(c.name) + rest =~= last.columns + (seq![c.name] + rest));
        },
        TableItem::Key(_) => {},
    }
    assert(with_columns(schema_after(schema, items[0]), rest) =~= with_columns(
        schema,
        column_names(items),
    ));
}

/// Adding no columns leaves the schema as it is.
proof fn lemma_no_columns(schema: Seq<RelationView>)
    requires
        schema.len() > 0,
    ensures
        with_columns(schema, Seq::empty()) == schema,
{
    assert(schema.last().columns + Seq::<Seq<char>>::empty() =~= schema.last().columns);
    assert(with_columns(schema, Seq::empty()) =~= schema);
}

/// The machine reads a list of well-formed items from its first token to
/// its last, and adds their columns in the order of the items.
proof fn lemma_run_items(
    tokens: Seq<TokenView>,
    state: ParserState,
    pos: int,
    schema: Seq<RelationView>,
    items: Seq<TableItem>,
)
    requires
        state is CreateTableBegin || state is Separator,
        schema.len() > 0,
        items.len() >= 1,
        forall|i: int| 0 <= i < items.len() ==> (#[trigger] items[i]).well_formed(),
        stands_at(tokens, pos, item_list(items)),
    ensures
        run(tokens, state, pos, schema) == run(
            tokens,
            state_after(items.last()),
            pos + item_list(items).len(),
            with_columns(schema, column_names(items)),
        ),
        item_complete(state_after(items.last())),
    decreases items.len(),
{
    let first = items[0];
    let rest = items.drop_first();
    let next = schema_after(schema, first);
    assert(first.well_formed());
    if items.len() == 1 {
        lemma_run_item(tokens, state, pos, schema, first);
        assert(column_names(rest) =~= Seq::empty());
        lemma_columns_after(schema, items);
        lemma_no_columns(next);
    } else {
        let head = first.tokens();
        let comma = seq![TokenView::Comma];
        lemma_stands_split(tokens, pos, head + comma, item_list(rest));
        lemma_stands_split(tokens, pos, head, comma);
        lemma_run_item(tokens, state, pos, schema, first);
        assert(tokens[pos + head.len() + 0] == comma[0]);
        lemma_run_step(tokens, state_after(first), pos + head.len(), next);
        assert forall|i: int| 0 <= i < rest.len() implies (#[trigger] rest[i]).well_formed() by {
            assert(rest[i] == items[i + 1]);
        }
        lemma_run_items(tokens, ParserState::Separator, pos + head.len() + 1, next, rest);
        assert(rest.last() == items.last());
        lemma_columns_after(schema, items);
    }
}

/// The machine reads a well-formed statement from its first token to its
/// semicolon, and adds the relation that the statement defines.
pub proof fn lemma_run_statement(
    tokens: Seq<TokenView>,
    state: ParserState,
    pos: int,
    schema: Seq<RelationView>,
    def: TableDef,
)
    requires
        state.accepting(),
        def.well_formed(),
        stands_at(tokens, pos, def.tokens()),
    ensures
        run(tokens, state, pos, schema) == run(
            tokens,
            ParserState::Semicolon,
            pos + def.tokens().len(),
            schema.push(def.relation()),
        ),
{
    let head = seq![
        TokenView::Ident(def.create),
        TokenView::Ident(def.table),
        def.name_token(),
        TokenView::LParen,
    ];
    let items = item_list(def.items);
    let close = seq![TokenView::RParen, TokenView::Semi];
    lemma_stands_split(tokens, pos, head + items, close);
    lemma_stands_split(tokens, pos, head, items);
    assert(tokens[pos + 0] == head[0]);
    assert(tokens[pos + 1] == head[1]);
    assert(tokens[pos + 2] == head[2]);
    assert(tokens[pos + 3] == head[3]);
    assert(tokens[pos + 4 + items.len() + 0] == close[0]);
    assert(tokens[pos + 4 + items.len() + 1] == close[1]);
    let named = with_relation(schema, def.relation().name);
    lemma_run_step(tokens, state, pos, schema);
    lemma_run_step(tokens, ParserState::Create, pos + 1, schema);
    lemma_run_step(tokens, ParserState::Table, pos + 2, schema);
    lemma_run_step(tokens, ParserState::TableName, pos + 3, named);
    lemma_run_items(tokens, ParserState::CreateTableBegin, pos + 4, named, def.items);
    let full = with_columns(named, column_names(def.items));
    let end = pos + 4 + items.len();
    lemma_run_step(tokens, state_after(def.items.last()), end, full);
    lemma_run_step(tokens, ParserState::CreateTableEnd, end + 1, full);
    assert(Seq::<Seq<char>>::empty() + column_names(def.items) =~= column_names(def.items));
    assert(full =~= schema.push(def.relation()));
}

/// A well-formed statement parses, and gives exactly one relation: its name
/// is the declared name with the first character in upper case, and its
/// columns are the declared columns in the order of their declaration. The
/// names of a key clause are not kept.
pub proof fn law_statement_parses(def: TableDef)
    requires
        def.well_formed(),
    ensures
        parse(def.tokens()) == Ok::<Seq<RelationView>, SyntaxErrorView>(seq![def.relation()]),
{
    let tokens = def.tokens();
    lemma_run_statement(tokens, ParserState::Init, 0, Seq::empty(), def);
    lemma_run_step(tokens, ParserState::Semicolon, tokens.len() as int, seq![def.relation()]);
    assert(Seq::<RelationView>::empty().push(def.relation()) =~= seq![def.relation()]);
}

/// The tokens of statements written one after the other.
pub open spec fn script(defs: Seq<TableDef>) -> Seq<TokenView>
    decreases defs.len(),
{
    if defs.len() == 0 {
        Seq::empty()
    } else {
        defs[0].tokens() + script(defs.drop_first())
    }
}

/// The relations that statements define, in the order of the statements.
pub open spec fn relations(defs: Seq<TableDef>) -> Seq<RelationView> {
    defs.map_values(|def: TableDef| def.relation())
}

/// The machine reads well-formed statements up to the end of the stream,
/// and adds their relations in the order of the statements.
proof fn lemma_run_script(
    tokens: Seq<TokenView>,
    state: ParserState,
    pos: int,
    schema: Seq<RelationView>,
    defs: Seq<TableDef>,
)
    requires
        state.accepting(),
        forall|i: int| 0 <= i < defs.len() ==> (#[trigger] defs[i]).well_formed(),
        stands_at(tokens, pos, script(defs)),
        pos + script(defs).len() == tokens.len(),
    ensures
        run(tokens, state, pos, schema) == Ok::<Seq<RelationView>, SyntaxErrorView>(
            schema + relations(defs),
        ),
    decreases defs.len(),
{
    lemma_run_step(tokens, state, pos, schema);
    if defs.len() == 0 {
        assert(schema + relations(defs) =~= schema);
    } else {
        let first = defs[0];
        let rest = defs.drop_first();
        assert(first.well_formed());
        lemma_stands_split(tokens, pos, first.tokens(), script(rest));
        lemma_run_statement(tokens, state, pos, schema, first);
        assert forall|i: int| 0 <= i < rest.len() implies (#[trigger] rest[i]).well_formed() by {
            assert(rest[i] == defs[i + 1]);
        }
        lemma_run_script(
            tokens,
            ParserState::Semicolon,
            pos + first.tokens().len(),
            schema.push(first.relation()),
            rest,
        );
        assert(schema.push(first.relation()) + relations(rest) =~= schema + relations(defs));
    }
}

/// Well-formed statements, written one after the other, parse, and give
/// one relation for each statement, in the order of the statements.
pub proof fn law_statements_parse(defs: Seq<TableDef>)
    requires
        forall|i: int| 0 <= i < defs.len() ==> (#[trigger] defs[i]).well_formed(),
    ensures
        parse(script(defs)) == Ok::<Seq<RelationView>, SyntaxErrorView>(relations(defs)),
{
    lemma_run_script(script(defs), ParserState::Init, 0, Seq::empty(), defs);
    assert(Seq::<RelationView>::empty() + relations(defs) =~= relations(defs));
}

/// Whether a token is neither `;` nor the end of the stream.
pub open spec fn inner(tok: TokenView) -> bool {
    !(tok is Semi) && !(tok is Eof)
}

/// Whether every token of `part` is neither `;` nor the end of the stream.
pub open spec fn all_inner(part: Seq<TokenView>) -> bool {
    forall|j: int| 0 <= j < part.len() ==> inner(#[trigger] part[j])
}

/// No name list holds `;` or the end of the stream.
proof fn lemma_names_inner(names: Seq<Seq<char>>)
    ensures
        all_inner(name_list(names)),
    decreases names.len(),
{
    if names.len() > 1 {
        lemma_names_inner(names.drop_first());
    }
}

/// No item holds `;` or the end of the stream.
proof fn lemma_item_inner(item: TableItem)
    ensures
        all_inner(item.tokens()),
{
    match item {
        TableItem::Column(c) => {
            assert(all_inner(c.ty.tokens()));
            assert(all_inner(c.not_null_tokens()));
        },
        TableItem::Key(k) => {
            lemma_names_inner(k.names);
        },
    }
}

/// No item list holds `;` or the end of the stream.
proof fn lemma_items_inner(items: Seq<TableItem>)
    ensures
        all_inner(item_list(items)),
    decreases items.len(),
{
    if items.len() >= 1 {
        lemma_item_inner(items[0]);
        if items.len() > 1 {
            lemma_items_inner(items.drop_first());
        }
    }
}

/// A well-formed statement that is cut short does not parse: its first
/// `cut` tokens, for any `cut` from 1 up to but not including the whole,
/// fail at the end of the truncated stream.
pub proof fn law_truncated_statement_fails(def: TableDef, cut: int)
    requires
        def.well_formed(),
        0 < cut < def.tokens().len(),
    ensures
        fails_at_end(parse(def.tokens().take(cut)), cut),
{
    let tokens = def.tokens();
    law_statement_parses(def);
    lemma_items_inner(def.items);
    let head = seq![
        TokenView::Ident(def.create),
        TokenView::Ident(def.table),
        def.name_token(),
        TokenView::LParen,
    ];
    let items = item_list(def.items);
    let close = seq![TokenView::RParen, TokenView::Semi];
    assert forall|i: int| 0 <= i < tokens.len() - 1 implies inner(#[trigger] tokens[i]) by {
        if i < 4 {
            assert(tokens[i] == head[i]);
        } else if i < 4 + items.len() {
            assert(tokens[i] == items[i - 4]);
        } else {
            assert(tokens[i] == close[i - 4 - items.len()]);
        }
    }
    assert(inner(tokens[cut - 1]));
    law_truncated_input_fails(tokens, cut);
}

} // verus!
