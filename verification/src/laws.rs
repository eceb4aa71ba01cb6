//! What holds of every parse: laws of the machine, proved from its
//! definition.

use crate::keyword::{ColumnType, SqlKeyword};
use crate::parser::{failure, parse, run, step, SyntaxErrorView};
use crate::schema::RelationView;
use crate::state::ParserState;
use crate::text::{folds_to, lower};
use crate::token::{token_at, TokenView};
use vstd::prelude::*;

verus! {

/// One step of a run, spelled out.
pub proof fn lemma_run_step(
    tokens: Seq<TokenView>,
    state: ParserState,
    pos: int,
    schema: Seq<RelationView>,
)
    ensures
        run(tokens, state, pos, schema) == (if token_at(tokens, pos) is Eof && state.accepting() {
            Ok::<Seq<RelationView>, SyntaxErrorView>(schema)
        } else {
            let s = step(state, tokens, pos, schema);
            match s.next {
                Some(next) => run(tokens, next, s.pos, s.schema),
                None => Err(failure(state, tokens, s.pos)),
            }
        }),
{
}

/// The same tokens give the same result: what a parse returns depends on
/// its input alone. Two parses of streams with equal tokens that both
/// succeed hand back equal schemas.
pub proof fn law_parse_is_repeatable(
    first: Seq<TokenView>,
    second: Seq<TokenView>,
    first_schema: Seq<RelationView>,
    second_schema: Seq<RelationView>,
)
    requires
        first == second,
        parse(first) == Ok::<Seq<RelationView>, SyntaxErrorView>(first_schema),
        parse(second) == Ok::<Seq<RelationView>, SyntaxErrorView>(second_schema),
    ensures
        first_schema == second_schema,
{
}

/// `CREATE INDEX` is recognised and not supported: wherever a statement may
/// start, the parse fails at the token after `INDEX`, in state `Index`,
/// whatever that token is.
pub proof fn law_create_index_fails(
    tokens: Seq<TokenView>,
    state: ParserState,
    pos: int,
    schema: Seq<RelationView>,
)
    requires
        state.accepting(),
        SqlKeyword::of_token(token_at(tokens, pos)) == Some(SqlKeyword::Create),
        SqlKeyword::of_token(token_at(tokens, pos + 1)) == Some(SqlKeyword::Index),
    ensures
        run(tokens, state, pos, schema) == Err::<Seq<RelationView>, SyntaxErrorView>(
            failure(ParserState::Index, tokens, pos + 2),
        ),
{
    lemma_run_step(tokens, state, pos, schema);
    lemma_run_step(tokens, ParserState::Create, pos + 1, schema);
    lemma_run_step(tokens, ParserState::Index, pos + 2, schema);
}

/// A stream that begins `CREATE INDEX` fails at its third token, in state
/// `Index`.
pub proof fn law_create_index_is_rejected(tokens: Seq<TokenView>)
    requires
        SqlKeyword::of_token(token_at(tokens, 0)) == Some(SqlKeyword::Create),
        SqlKeyword::of_token(token_at(tokens, 1)) == Some(SqlKeyword::Index),
    ensures
        parse(tokens) == Err::<Seq<RelationView>, SyntaxErrorView>(
            failure(ParserState::Index, tokens, 2),
        ),
{
    law_create_index_fails(tokens, ParserState::Init, 0, Seq::empty());
}

/// Whether no token of `tokens` before `end` is an end-of-stream token.
pub open spec fn no_eof_before(tokens: Seq<TokenView>, end: int) -> bool {
    forall|i: int| 0 <= i < end && i < tokens.len() ==> !(#[trigger] tokens[i] is Eof)
}

/// A run that fails at the end of the stream.
pub open spec fn fails_at_end(
    result: Result<Seq<RelationView>, SyntaxErrorView>,
    end: int,
) -> bool {
    match result {
        Ok(_) => false,
        Err(e) => e.location == end && e.token == TokenView::Eof.text(),
    }
}

/// A run on a truncated stream: if the run on the whole stream succeeds,
/// the run on its first `cut` tokens fails at their end, unless the cut
/// falls where a parse may end.
proof fn lemma_truncated_run(
    tokens: Seq<TokenView>,
    cut: int,
    state: ParserState,
    pos: int,
    schema: Seq<RelationView>,
)
    requires
        0 <= pos <= cut <= tokens.len(),
        0 < cut,
        no_eof_before(tokens, cut),
        tokens[cut - 1] != TokenView::Semi,
        run(tokens, state, pos, schema) is Ok,
        state is Init ==> pos == 0,
        state is Semicolon ==> pos > 0 && tokens[pos - 1] == TokenView::Semi,
    ensures
        fails_at_end(run(tokens.take(cut), state, pos, schema), cut),
    decreases tokens.len() - pos, (if state is TableName { 1int } else { 0int }),
{
    let short = tokens.take(cut);
    lemma_run_step(tokens, state, pos, schema);
    lemma_run_step(short, state, pos, schema);
    if pos == cut {
        assert(token_at(short, pos) is Eof);
        assert(!state.accepting());
        if state is TableName {
            lemma_run_step(short, ParserState::CreateTableBegin, pos, schema);
        }
    } else {
        assert(token_at(short, pos) == token_at(tokens, pos));
        assert(!(tokens[pos] is Eof));
        let s = step(state, tokens, pos, schema);
        if state is AttributeTypeArgs && pos + 1 == cut {
            assert(token_at(short, pos + 1) is Eof);
        } else {
            if pos + 1 < cut {
                assert(token_at(short, pos + 1) == token_at(tokens, pos + 1));
            }
            assert(step(state, short, pos, schema) == s);
            lemma_truncated_run(tokens, cut, s.next->0, s.pos, s.schema);
        }
    }
}

/// A truncated input fails, and fails at its end: if a stream parses, then
/// its first `cut` tokens, unless they end in `;`, do not parse. The failure
/// is located at the end of the truncated stream, the first place where a
/// token that the grammar requires is missing.
pub proof fn law_truncated_input_fails(tokens: Seq<TokenView>, cut: int)
    requires
        0 < cut <= tokens.len(),
        no_eof_before(tokens, cut),
        tokens[cut - 1] != TokenView::Semi,
        parse(tokens) is Ok,
    ensures
        fails_at_end(parse(tokens.take(cut)), cut),
{
    lemma_truncated_run(tokens, cut, ParserState::Init, 0, Seq::empty());
}

/// Each reserved word, spelled in lower case, reads as itself; the name of
/// a type reads as the type with its arguments at zero.
pub proof fn law_vocabulary()
    ensures
        SqlKeyword::of_text("primary"@) == Some(SqlKeyword::Primary),
        SqlKeyword::of_text("key"@) == Some(SqlKeyword::Key),
        SqlKeyword::of_text("create"@) == Some(SqlKeyword::Create),
        SqlKeyword::of_text("table"@) == Some(SqlKeyword::Table),
        SqlKeyword::of_text("index"@) == Some(SqlKeyword::Index),
        SqlKeyword::of_text("on"@) == Some(SqlKeyword::On),
        SqlKeyword::of_text("not"@) == Some(SqlKeyword::Not),
        SqlKeyword::of_text("null"@) == Some(SqlKeyword::Null),
        SqlKeyword::of_text("integer"@) == Some(SqlKeyword::TypeKeyword(ColumnType::Integer)),
        SqlKeyword::of_text("timestamp"@) == Some(SqlKeyword::TypeKeyword(ColumnType::Timestamp)),
        SqlKeyword::of_text("numeric"@) == Some(
            SqlKeyword::TypeKeyword(ColumnType::Numeric(0, 0)),
        ),
        SqlKeyword::of_text("char"@) == Some(SqlKeyword::TypeKeyword(ColumnType::Char(0))),
        SqlKeyword::of_text("varchar"@) == Some(SqlKeyword::TypeKeyword(ColumnType::Varchar(0))),
{
    reveal_strlit("primary");
    reveal_strlit("key");
    reveal_strlit("create");
    reveal_strlit("table");
    reveal_strlit("index");
    reveal_strlit("on");
    reveal_strlit("not");
    reveal_strlit("null");
    reveal_strlit("integer");
    reveal_strlit("timestamp");
    reveal_strlit("numeric");
    reveal_strlit("char");
    reveal_strlit("varchar");
    assert(lower("index"@[0]) != "table"@[0]);
    assert(lower("integer"@[0]) != "primary"@[0]);
    assert(lower("numeric"@[0]) != "primary"@[0]);
    assert(lower("numeric"@[0]) != "integer"@[0]);
    assert(lower("not"@[0]) != "key"@[0]);
    assert(lower("char"@[0]) != "null"@[0]);
    assert(lower("varchar"@[0]) != "primary"@[0]);
    assert(lower("varchar"@[0]) != "integer"@[0]);
    assert(lower("varchar"@[0]) != "numeric"@[0]);
}

/// Reserved words are recognised without regard to the case of ASCII
/// letters: two texts that differ only in that case read as the same word,
/// or both as none.
pub proof fn law_keywords_ignore_case(first: Seq<char>, second: Seq<char>)
    requires
        first.len() == second.len(),
        forall|i: int| 0 <= i < first.len() ==> lower(first[i]) == lower(second[i]),
    ensures
        SqlKeyword::of_text(first) == SqlKeyword::of_text(second),
{
    assert forall|word: Seq<char>| folds_to(first, word) == folds_to(second, word) by {
        if folds_to(first, word) {
            assert forall|i: int| 0 <= i < second.len() implies lower(#[trigger] second[i])
                == word[i] by {
                assert(lower(first[i]) == word[i]);
            }
        }
        if folds_to(second, word) {
            assert forall|i: int| 0 <= i < first.len() implies lower(#[trigger] first[i])
                == word[i] by {
                assert(lower(second[i]) == word[i]);
            }
        }
    }
}

/// Whether `after` is `before` grown: it has the relations of `before`, in
/// their order and under their names, each with its columns of `before`
/// first and in their order.
pub open spec fn extends(after: Seq<RelationView>, before: Seq<RelationView>) -> bool {
    &&& before.len() <= after.len()
    &&& forall|i: int|
        0 <= i < before.len() ==> (#[trigger] after[i]).name == before[i].name
            && before[i].columns.is_prefix_of(after[i].columns)
}

/// A step only adds to the schema: no relation and no column is removed,
/// renamed or moved.
pub proof fn law_step_extends_schema(
    state: ParserState,
    tokens: Seq<TokenView>,
    pos: int,
    schema: Seq<RelationView>,
)
    requires
        state is CreateTableBegin || state is Separator ==> schema.len() > 0,
    ensures
        extends(step(state, tokens, pos, schema).schema, schema),
        step(state, tokens, pos, schema).next is None ==> step(state, tokens, pos, schema).schema
            == schema,
{
    let after = step(state, tokens, pos, schema).schema;
    assert forall|i: int| 0 <= i < schema.len() implies (#[trigger] after[i]).name
        == schema[i].name && schema[i].columns.is_prefix_of(after[i].columns) by {
        assert(schema[i].columns.is_prefix_of(schema[i].columns));
        if after != schema && i == schema.len() - 1 && after.len() == schema.len() {
            let name = after[i].columns.last();
            assert(after[i].columns == schema[i].columns.push(name));
            assert(schema[i].columns.is_prefix_of(schema[i].columns.push(name)));
        }
    }
}

/// A parse only adds to the schema it starts with: what a run hands back
/// has the relations and columns that the run began with, in their order.
pub proof fn law_run_extends_schema(
    tokens: Seq<TokenView>,
    state: ParserState,
    pos: int,
    schema: Seq<RelationView>,
)
    requires
        state.in_table() ==> schema.len() > 0,
        run(tokens, state, pos, schema) is Ok,
    ensures
        extends(run(tokens, state, pos, schema)->Ok_0, schema),
    decreases tokens.len() - pos, (if state is TableName { 1int } else { 0int }),
{
    lemma_run_step(tokens, state, pos, schema);
    let result = run(tokens, state, pos, schema)->Ok_0;
    if token_at(tokens, pos) is Eof && state.accepting() {
        assert forall|i: int| 0 <= i < schema.len() implies schema[i].columns.is_prefix_of(
            (#[trigger] result[i]).columns,
        ) by {
            assert(schema[i].columns.is_prefix_of(schema[i].columns));
        }
    } else {
        let s = step(state, tokens, pos, schema);
        law_step_extends_schema(state, tokens, pos, schema);
        law_run_extends_schema(tokens, s.next->0, s.pos, s.schema);
        assert forall|i: int| 0 <= i < schema.len() implies (#[trigger] result[i]).name
            == schema[i].name && schema[i].columns.is_prefix_of(result[i].columns) by {
            assert(s.schema[i].name == schema[i].name);
            assert(schema[i].columns.is_prefix_of(s.schema[i].columns));
            assert(s.schema[i].columns.is_prefix_of(result[i].columns));
        }
    }
}

/// A run that starts inside the stream fails inside it or at its end.
proof fn lemma_run_fails_within(
    tokens: Seq<TokenView>,
    state: ParserState,
    pos: int,
    schema: Seq<RelationView>,
)
    requires
        0 <= pos <= tokens.len(),
        run(tokens, state, pos, schema) is Err,
    ensures
        pos <= run(tokens, state, pos, schema)->Err_0.location <= tokens.len(),
    decreases tokens.len() - pos, (if state is TableName { 1int } else { 0int }),
{
    lemma_run_step(tokens, state, pos, schema);
    let s = step(state, tokens, pos, schema);
    if s.next is Some {
        lemma_run_fails_within(tokens, s.next->0, s.pos, s.schema);
    }
}

/// A failure is located: it names a place in the stream, at most its end,
/// and the token that it carries is the token at that place.
pub proof fn law_failure_is_located(tokens: Seq<TokenView>)
    requires
        parse(tokens) is Err,
    ensures
        0 <= parse(tokens)->Err_0.location <= tokens.len(),
        parse(tokens)->Err_0.token == token_at(tokens, parse(tokens)->Err_0.location).text(),
{
    lemma_run_fails_within(tokens, ParserState::Init, 0, Seq::empty());
    lemma_failure_token(tokens, ParserState::Init, 0, Seq::empty());
}

/// The token of a failure is the token at its place.
proof fn lemma_failure_token(
    tokens: Seq<TokenView>,
    state: ParserState,
    pos: int,
    schema: Seq<RelationView>,
)
    requires
        run(tokens, state, pos, schema) is Err,
    ensures
        run(tokens, state, pos, schema)->Err_0.token == token_at(
            tokens,
            run(tokens, state, pos, schema)->Err_0.location,
        ).text(),
    decreases tokens.len() - pos, (if state is TableName { 1int } else { 0int }),
{
    lemma_run_step(tokens, state, pos, schema);
    let s = step(state, tokens, pos, schema);
    if s.next is Some {
        lemma_failure_token(tokens, s.next->0, s.pos, s.schema);
    }
}

} // verus!
