//! The schema parser: a state machine that is driven one step at a time,
//! and the loop that drives it over a whole token stream.

use crate::cursor::Parser;
use crate::keyword::{ColumnType, SqlKeyword};
use crate::schema::{with_column, with_relation, RelationView, Schema};
use crate::state::ParserState;
use crate::text::{capitalize, capitalized};
use crate::token::{token_at, views, Token, TokenView};
use vstd::prelude::*;
use vstd::string::StringExecFns;

verus! {

/// What one step of the machine does: the state it leads to, or `None` where
/// the step fails; the position at which it leaves the stream; and the
/// schema as it leaves it. A failed step leaves the stream at the token that
/// it did not accept.
pub struct Step {
    pub next: Option<ParserState>,
    pub pos: int,
    pub schema: Seq<RelationView>,
}

/// A step that leads to `next`.
pub open spec fn moved(next: ParserState, pos: int, schema: Seq<RelationView>) -> Step {
    Step { next: Some(next), pos, schema }
}

/// A step that fails at `pos`.
pub open spec fn failed(pos: int, schema: Seq<RelationView>) -> Step {
    Step { next: None, pos, schema }
}

/// The step after a complete column type: `,` leads to the next item, `NOT`
/// opens a not-null clause, `)` closes the table.
pub open spec fn step_after_type(tok: TokenView, pos: int, schema: Seq<RelationView>) -> Step {
    if tok == TokenView::Comma {
        moved(ParserState::Separator, pos + 1, schema)
    } else if SqlKeyword::of_token(tok) == Some(SqlKeyword::Not) {
        moved(ParserState::Not, pos + 1, schema)
    } else if tok == TokenView::RParen {
        moved(ParserState::CreateTableEnd, pos + 1, schema)
    } else {
        failed(pos, schema)
    }
}

/// The step after a complete item: `,` leads to the next item, `)` closes
/// the table.
pub open spec fn step_after_item(tok: TokenView, pos: int, schema: Seq<RelationView>) -> Step {
    if tok == TokenView::Comma {
        moved(ParserState::Separator, pos + 1, schema)
    } else if tok == TokenView::RParen {
        moved(ParserState::CreateTableEnd, pos + 1, schema)
    } else {
        failed(pos, schema)
    }
}

/// The step at the start of an item of a table: `)` closes the table,
/// `PRIMARY` opens a key clause, any other identifier names a new column of
/// the last relation.
pub open spec fn step_item(tok: TokenView, pos: int, schema: Seq<RelationView>) -> Step {
    if tok == TokenView::RParen {
        moved(ParserState::CreateTableEnd, pos + 1, schema)
    } else if SqlKeyword::of_token(tok) == Some(SqlKeyword::Primary) {
        moved(ParserState::Primary, pos + 1, schema)
    } else {
        match tok {
            TokenView::Ident(name) => moved(
                ParserState::AttributeName,
                pos + 1,
                with_column(schema, name),
            ),
            _ => failed(pos, schema),
        }
    }
}

/// The step inside a type's arguments: an integer literal, then `)` to end
/// the arguments or `,` to go on with the next. The literal's value is not
/// kept.
pub open spec fn step_type_args(
    ty: ColumnType,
    tokens: Seq<TokenView>,
    pos: int,
    schema: Seq<RelationView>,
) -> Step {
    match token_at(tokens, pos) {
        TokenView::Int(_) => {
            let after = token_at(tokens, pos + 1);
            if after == TokenView::RParen {
                moved(ParserState::AttributeTypeArgsEnd, pos + 2, schema)
            } else if after == TokenView::Comma {
                moved(ParserState::AttributeTypeArgs(ty), pos + 2, schema)
            } else {
                failed(pos + 1, schema)
            }
        },
        _ => failed(pos, schema),
    }
}

/// The step that leads to `next` if the lookahead reads as `keyword`.
pub open spec fn step_keyword(
    keyword: SqlKeyword,
    next: ParserState,
    tok: TokenView,
    pos: int,
    schema: Seq<RelationView>,
) -> Step {
    if SqlKeyword::of_token(tok) == Some(keyword) {
        moved(next, pos + 1, schema)
    } else {
        failed(pos, schema)
    }
}

/// The step that leads to `next` if the lookahead is the token `want`.
pub open spec fn step_token(
    want: TokenView,
    next: ParserState,
    tok: TokenView,
    pos: int,
    schema: Seq<RelationView>,
) -> Step {
    if tok == want {
        moved(next, pos + 1, schema)
    } else {
        failed(pos, schema)
    }
}

/// The transition function of the machine. It is total: a state and a
/// lookahead for which the grammar has no rule give a failed step.
pub open spec fn step(
    state: ParserState,
    tokens: Seq<TokenView>,
    pos: int,
    schema: Seq<RelationView>,
) -> Step {
    let tok = token_at(tokens, pos);
    match state {
        ParserState::Init | ParserState::Semicolon => step_keyword(
            SqlKeyword::Create,
            ParserState::Create,
            tok,
            pos,
            schema,
        ),
        ParserState::Create => if SqlKeyword::of_token(tok) == Some(SqlKeyword::Table) {
            moved(ParserState::Table, pos + 1, schema)
        } else if SqlKeyword::of_token(tok) == Some(SqlKeyword::Index) {
            moved(ParserState::Index, pos + 1, schema)
        } else {
            failed(pos, schema)
        },
        ParserState::Table => match tok {
            TokenView::Ident(name) => moved(
                ParserState::TableName,
                pos + 1,
                with_relation(schema, capitalized(name)),
            ),
            TokenView::Str(name) => moved(
                ParserState::TableName,
                pos + 1,
                with_relation(schema, capitalized(name)),
            ),
            _ => failed(pos, schema),
        },
        ParserState::TableName => moved(
            ParserState::CreateTableBegin,
            if tok == TokenView::LParen {
                pos + 1
            } else {
                pos
            },
            schema,
        ),
        ParserState::CreateTableBegin | ParserState::Separator => step_item(tok, pos, schema),
        ParserState::AttributeName => match SqlKeyword::of_token(tok) {
            Some(SqlKeyword::TypeKeyword(ty)) => moved(
                ParserState::AttributeType(ty),
                pos + 1,
                schema,
            ),
            _ => failed(pos, schema),
        },
        ParserState::AttributeType(ty) => if ty.takes_arguments() {
            step_token(TokenView::LParen, ParserState::AttributeTypeArgs(ty), tok, pos, schema)
        } else {
            step_after_type(tok, pos, schema)
        },
        ParserState::AttributeTypeArgsEnd => step_after_type(tok, pos, schema),
        ParserState::AttributeTypeArgs(ty) => step_type_args(ty, tokens, pos, schema),
        ParserState::Not => step_keyword(SqlKeyword::Null, ParserState::Null, tok, pos, schema),
        ParserState::Null => step_after_item(tok, pos, schema),
        ParserState::CreateTableEnd => step_token(
            TokenView::Semi,
            ParserState::Semicolon,
            tok,
            pos,
            schema,
        ),
        ParserState::Primary => step_keyword(SqlKeyword::Key, ParserState::Key, tok, pos, schema),
        ParserState::Key => step_token(
            TokenView::LParen,
            ParserState::KeyListBegin,
            tok,
            pos,
            schema,
        ),
        ParserState::KeyListBegin => match tok {
            TokenView::Ident(_) => moved(ParserState::KeyName, pos + 1, schema),
            _ => failed(pos, schema),
        },
        ParserState::KeyName => if tok == TokenView::Comma {
            moved(ParserState::KeyListBegin, pos + 1, schema)
        } else if tok == TokenView::RParen {
            moved(ParserState::KeyListEnd, pos + 1, schema)
        } else {
            failed(pos, schema)
        },
        ParserState::KeyListEnd => step_after_item(tok, pos, schema),
        _ => failed(pos, schema),
    }
}

/// The message of a failure: the token that was not accepted and the state
/// that did not accept it.
pub open spec fn unexpected(token: Seq<char>, state: Seq<char>) -> Seq<char> {
    "Unexpected token '"@ + token + "' at state '"@ + state + "'"@
}

/// Whether `result` is what a step from `state` hands back when the machine
/// makes `step`: the state the step leads to, or the error state with the
/// message of the failure.
pub open spec fn step_result(
    result: ParserState,
    state: ParserState,
    tokens: Seq<TokenView>,
    step: Step,
) -> bool {
    match step.next {
        Some(next) => result == next,
        None => match result {
            ParserState::Error(message) => message@ == unexpected(
                token_at(tokens, step.pos).text(),
                state.spec_name(),
            ),
            _ => false,
        },
    }
}

/// The error state for the lookahead of `parser`, which `state` did not
/// accept.
pub fn err(parser: &Parser, state: ParserState) -> (r: ParserState)
    ensures
        step_result(r, state, parser.tokens(), failed(parser.pos(), Seq::empty())),
{
    let mut message = String::from_str("Unexpected token '");
    message.append(parser.this_token_to_string().as_str());
    message.append("' at state '");
    message.append(state.name());
    message.append("'");
    ParserState::Error(message)
}

/// Makes one step of the machine: from `state`, with the lookahead of
/// `parser`. It may consume tokens and may add a relation or a column to
/// `schema`. Where the grammar has no rule for the state and the lookahead,
/// the result is the error state, and the stream stands at the token that
/// was not accepted.
pub fn parse_next_token(parser: &mut Parser, state: ParserState, schema: &mut Schema) -> (r:
    ParserState)
    requires
        state is CreateTableBegin || state is Separator ==> old(schema)@.len() > 0,
    ensures
        final(parser).tokens() == old(parser).tokens(),
        final(parser).pos() == step(
            state,
            old(parser).tokens(),
            old(parser).pos(),
            old(schema)@,
        ).pos,
        final(schema)@ == step(
            state,
            old(parser).tokens(),
            old(parser).pos(),
            old(schema)@,
        ).schema,
        step_result(
            r,
            state,
            old(parser).tokens(),
            step(state, old(parser).tokens(), old(parser).pos(), old(schema)@),
        ),
{
    match state {
        ParserState::Init | ParserState::Semicolon => {
            if parser.eat_sql_keyword(SqlKeyword::Create) {
                ParserState::Create
            } else {
                err(parser, state)
            }
        },
        ParserState::Create => {
            if parser.eat_sql_keyword(SqlKeyword::Table) {
                ParserState::Table
            } else if parser.eat_sql_keyword(SqlKeyword::Index) {
                ParserState::Index
            } else {
                err(parser, state)
            }
        },
        ParserState::Table => {
            let name = match parser.peek() {
                Some(Token::Ident(name)) => Some(capitalize(name.as_str())),
                Some(Token::Str(name)) => Some(capitalize(name.as_str())),
                _ => None,
            };
            match name {
                Some(name) => {
                    parser.bump();
                    schema.add_relation(name);
                    ParserState::TableName
                },
                None => err(parser, state),
            }
        },
        ParserState::TableName => {
            parser.eat(&Token::LParen);
            ParserState::CreateTableBegin
        },
        ParserState::CreateTableBegin | ParserState::Separator => {
            if parser.eat(&Token::RParen) {
                ParserState::CreateTableEnd
            } else if parser.eat_sql_keyword(SqlKeyword::Primary) {
                ParserState::Primary
            } else {
                let name = match parser.peek() {
                    Some(Token::Ident(name)) => Some(name.clone()),
                    _ => None,
                };
                match name {
                    Some(name) => {
                        parser.bump();
                        schema.add_column(name);
                        ParserState::AttributeName
                    },
                    None => err(parser, state),
                }
            }
        },
        ParserState::AttributeName => {
            match parser.eat_sql_type_keyword() {
                Some(ty) => ParserState::AttributeType(ty),
                None => err(parser, state),
            }
        },
        ParserState::AttributeType(ty) => {
            if ty.takes_arguments() {
                if parser.eat(&Token::LParen) {
                    ParserState::AttributeTypeArgs(ty)
                } else {
                    err(parser, state)
                }
            } else {
                after_type(parser, state)
            }
        },
        ParserState::AttributeTypeArgsEnd => after_type(parser, state),
        ParserState::AttributeTypeArgs(ty) => {
            let literal = match parser.peek() {
                Some(Token::Int(_)) => true,
                _ => false,
            };
            if literal {
                parser.bump();
                if parser.eat(&Token::RParen) {
                    ParserState::AttributeTypeArgsEnd
                } else if parser.eat(&Token::Comma) {
                    ParserState::AttributeTypeArgs(ty)
                } else {
                    err(parser, state)
                }
            } else {
                err(parser, state)
            }
        },
        ParserState::Not => {
            if parser.eat_sql_keyword(SqlKeyword::Null) {
                ParserState::Null
            } else {
                err(parser, state)
            }
        },
        ParserState::Null => after_item(parser, state),
        ParserState::CreateTableEnd => {
            if parser.eat(&Token::Semi) {
                ParserState::Semicolon
            } else {
                err(parser, state)
            }
        },
        ParserState::Primary => {
            if parser.eat_sql_keyword(SqlKeyword::Key) {
                ParserState::Key
            } else {
                err(parser, state)
            }
        },
        ParserState::Key => {
            if parser.eat(&Token::LParen) {
                ParserState::KeyListBegin
            } else {
                err(parser, state)
            }
        },
        ParserState::KeyListBegin => {
            let named = match parser.peek() {
                Some(Token::Ident(_)) => true,
                _ => false,
            };
            if named {
                parser.bump();
                ParserState::KeyName
            } else {
                err(parser, state)
            }
        },
        ParserState::KeyName => {
            if parser.eat(&Token::Comma) {
                ParserState::KeyListBegin
            } else if parser.eat(&Token::RParen) {
                ParserState::KeyListEnd
            } else {
                err(parser, state)
            }
        },
        ParserState::KeyListEnd => after_item(parser, state),
        _ => err(parser, state),
    }
}

/// The step after a complete column type.
fn after_type(parser: &mut Parser, state: ParserState) -> (r: ParserState)
    ensures
        final(parser).tokens() == old(parser).tokens(),
        final(parser).pos() == step_after_type(
            old(parser).lookahead(),
            old(parser).pos(),
            Seq::empty(),
        ).pos,
        step_result(
            r,
            state,
            old(parser).tokens(),
            step_after_type(old(parser).lookahead(), old(parser).pos(), Seq::empty()),
        ),
{
    if parser.eat(&Token::Comma) {
        ParserState::Separator
    } else if parser.eat_sql_keyword(SqlKeyword::Not) {
        ParserState::Not
    } else if parser.eat(&Token::RParen) {
        ParserState::CreateTableEnd
    } else {
        err(parser, state)
    }
}

/// The step after a complete item.
fn after_item(parser: &mut Parser, state: ParserState) -> (r: ParserState)
    ensures
        final(parser).tokens() == old(parser).tokens(),
        final(parser).pos() == step_after_item(
            old(parser).lookahead(),
            old(parser).pos(),
            Seq::empty(),
        ).pos,
        step_result(
            r,
            state,
            old(parser).tokens(),
            step_after_item(old(parser).lookahead(), old(parser).pos(), Seq::empty()),
        ),
{
    if parser.eat(&Token::Comma) {
        ParserState::Separator
    } else if parser.eat(&Token::RParen) {
        ParserState::CreateTableEnd
    } else {
        err(parser, state)
    }
}

/// The one kind of failure: a token that the grammar does not accept where
/// it stands.
#[derive(Debug, PartialEq, Eq)]
pub struct SyntaxError {
    /// The name of the state that did not accept the token.
    pub state: String,
    /// The token, as it is written in source text.
    pub token: String,
    /// The token's place in the stream: how many tokens stand before it.
    pub location: usize,
}

/// The mathematical value of a [`SyntaxError`].
pub struct SyntaxErrorView {
    pub state: Seq<char>,
    pub token: Seq<char>,
    pub location: int,
}

impl View for SyntaxError {
    type V = SyntaxErrorView;

    open spec fn view(&self) -> SyntaxErrorView {
        SyntaxErrorView { state: self.state@, token: self.token@, location: self.location as int }
    }
}

impl SyntaxError {
    /// The message of the failure.
    pub fn message(&self) -> (r: String)
        ensures
            r@ == unexpected(self@.token, self@.state),
    {
        let mut message = String::from_str("Unexpected token '");
        message.append(self.token.as_str());
        message.append("' at state '");
        message.append(self.state.as_str());
        message.append("'");
        message
    }
}

/// The failure of a step from `state` that stopped at `pos`.
pub open spec fn failure(state: ParserState, tokens: Seq<TokenView>, pos: int) -> SyntaxErrorView {
    SyntaxErrorView {
        state: state.spec_name(),
        token: token_at(tokens, pos).text(),
        location: pos,
    }
}

/// What the machine makes of the tokens from `pos` on, started in `state`
/// with `schema`: it steps until a step fails, which is the failure of the
/// whole, or until the stream is at its end in a state in which a parse may
/// end, which gives the schema.
pub open spec fn run(
    tokens: Seq<TokenView>,
    state: ParserState,
    pos: int,
    schema: Seq<RelationView>,
) -> Result<Seq<RelationView>, SyntaxErrorView>
    decreases tokens.len() - pos, (if state is TableName { 1int } else { 0int }),
{
    if token_at(tokens, pos) is Eof && state.accepting() {
        Ok(schema)
    } else {
        let s = step(state, tokens, pos, schema);
        match s.next {
            Some(next) => run(tokens, next, s.pos, s.schema),
            None => Err(failure(state, tokens, s.pos)),
        }
    }
}

/// The schema that a token stream describes, or the first failure.
pub open spec fn parse(tokens: Seq<TokenView>) -> Result<Seq<RelationView>, SyntaxErrorView> {
    run(tokens, ParserState::Init, 0, Seq::empty())
}

/// Parses a token stream, a sequence of `CREATE TABLE` statements that each
/// end in `;`, into the schema that it describes. The parse stops at the
/// first token that the grammar does not accept; a stream that ends inside
/// a statement fails at its end. No partial schema is returned.
pub fn parse_sql_schema(tokens: Vec<Token>) -> (r: Result<Schema, SyntaxError>)
    ensures
        match r {
            Ok(schema) => parse(views(tokens@)) == Ok::<_, SyntaxErrorView>(schema@),
            Err(e) => parse(views(tokens@)) == Err::<Seq<RelationView>, _>(e@),
        },
{
    let ghost ts = views(tokens@);
    let mut parser = Parser::new(tokens);
    let mut state = ParserState::Init;
    let mut schema = Schema::new();
    loop
        invariant
            ts == views(tokens@),
            parser.tokens() == ts,
            0 <= parser.pos() <= ts.len(),
            !(state is Error),
            state.in_table() ==> schema@.len() > 0,
            run(ts, state, parser.pos(), schema@) == parse(ts),
        decreases ts.len() - parser.pos(), (if state is TableName { 1int } else { 0int }),
    {
        if parser.at_eof() && state.accepting() {
            return Ok(schema);
        }
        let name = state.name();
        let next = parse_next_token(&mut parser, state, &mut schema);
        match next {
            ParserState::Error(_) => {
                return Err(
                    SyntaxError {
                        state: String::from_str(name),
                        token: parser.this_token_to_string(),
                        location: parser.position(),
                    },
                );
            },
            _ => {
                state = next;
            },
        }
    }
}

} // verus!
