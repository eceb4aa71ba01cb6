use sql_generator::cursor::Parser;
use sql_generator::keyword::{ColumnType, SqlKeyword};
use sql_generator::parser::{err, parse_next_token, parse_sql_schema, SyntaxError};
use sql_generator::schema::{Column, Relation, Schema};
use sql_generator::state::ParserState;
use sql_generator::text::{capitalize, decimal_string, matches_word, replace_head};
use sql_generator::token::Token;

/// Splits source text into tokens, as a lexer would.
fn lex(source: &str) -> Vec<Token> {
    let chars: Vec<char> = source.chars().collect();
    let mut tokens = Vec::new();
    let mut i = 0;
    while i < chars.len() {
        let c = chars[i];
        if c.is_whitespace() {
            i += 1;
        } else if c.is_alphabetic() || c == '_' {
            let start = i;
            while i < chars.len() && (chars[i].is_alphanumeric() || chars[i] == '_') {
                i += 1;
            }
            tokens.push(Token::Ident(chars[start..i].iter().collect()));
        } else if c.is_ascii_digit() {
            let start = i;
            while i < chars.len() && chars[i].is_ascii_digit() {
                i += 1;
            }
            let text: String = chars[start..i].iter().collect();
            tokens.push(Token::Int(text.parse().unwrap()));
        } else if c == '"' {
            let start = i + 1;
            i += 1;
            while i < chars.len() && chars[i] != '"' {
                i += 1;
            }
            tokens.push(Token::Str(chars[start..i].iter().collect()));
            i += 1;
        } else {
            tokens.push(match c {
                '(' => Token::LParen,
                ')' => Token::RParen,
                ',' => Token::Comma,
                ';' => Token::Semi,
                _ => Token::Other(c.to_string()),
            });
            i += 1;
        }
    }
    tokens
}

fn parse(source: &str) -> Result<Schema, SyntaxError> {
    parse_sql_schema(lex(source))
}

fn relation(name: &str, columns: &[&str]) -> Relation {
    Relation {
        name: name.to_string(),
        columns: columns.iter().map(|c| Column::new(c.to_string())).collect(),
    }
}

fn failure(state: &str, token: &str, location: usize) -> SyntaxError {
    SyntaxError { state: state.to_string(), token: token.to_string(), location }
}

#[test]
fn single_statement_gives_one_relation() {
    let schema = parse("CREATE TABLE warehouse (w_id integer, w_name varchar(10), w_tax numeric(4,4));")
        .unwrap();
    assert_eq!(schema.relations, vec![relation("Warehouse", &["w_id", "w_name", "w_tax"])]);
}

#[test]
fn columns_keep_their_declaration_order() {
    let schema = parse("create table t (z integer, a integer, m integer, b timestamp);").unwrap();
    assert_eq!(schema.relations, vec![relation("T", &["z", "a", "m", "b"])]);
}

#[test]
fn keywords_match_in_any_case() {
    let schema = parse("Create TaBlE t (x INTEGER Not nULL, y VarChar(3), Primary KEY (x));")
        .unwrap();
    assert_eq!(schema.relations, vec![relation("T", &["x", "y"])]);
}

#[test]
fn multiple_statements() {
    let schema = parse("CREATE TABLE a (x integer); CREATE TABLE b (y integer);").unwrap();
    assert_eq!(schema.relations, vec![relation("A", &["x"]), relation("B", &["y"])]);
}

#[test]
fn state_returns_to_semicolon_between_statements() {
    let mut parser = Parser::new(lex("create table a (x integer); create table b (y integer);"));
    let mut schema = Schema::new();
    let mut state = ParserState::Init;
    let mut after_first = None;
    while !parser.at_eof() {
        state = parse_next_token(&mut parser, state, &mut schema);
        if parser.position() == 8 {
            after_first = Some((format!("{:?}", state), schema.relations.len()));
        }
    }
    assert_eq!(after_first, Some(("Semicolon".to_string(), 1)));
    assert_eq!(state, ParserState::Semicolon);
    assert_eq!(schema.relations.len(), 2);
}

#[test]
fn type_arguments() {
    let schema = parse("CREATE TABLE t (x numeric(4,2) not null);").unwrap();
    assert_eq!(schema.relations, vec![relation("T", &["x"])]);
    assert_eq!(
        parse("CREATE TABLE t (x numeric(4,2 not null);"),
        Err(failure("AttributeTypeArgs", "not", 10))
    );
}

#[test]
fn type_arguments_are_integer_literals() {
    assert_eq!(
        parse("create table t (x char(n));"),
        Err(failure("AttributeTypeArgs", "n", 7))
    );
    assert_eq!(
        parse("create table t (x char());"),
        Err(failure("AttributeTypeArgs", ")", 7))
    );
    assert_eq!(parse("create table t (x char);"), Err(failure("AttributeType", ")", 6)));
    assert_eq!(parse("create table t (x integer(4));"), Err(failure("AttributeType", "(", 6)));
    assert!(parse("create table t (x char(2), y varchar(500), z numeric(12,2));").is_ok());
}

#[test]
fn primary_key_clause_is_read_and_not_kept() {
    let schema = parse("CREATE TABLE t (x integer, primary key (x));").unwrap();
    assert_eq!(schema.relations, vec![relation("T", &["x"])]);
    let schema = parse("create table t (a integer, b integer, primary key (a,b), c integer);")
        .unwrap();
    assert_eq!(schema.relations, vec![relation("T", &["a", "b", "c"])]);
}

#[test]
fn primary_key_clause_failures() {
    assert_eq!(parse("create table t (primary (x));"), Err(failure("Primary", "(", 5)));
    assert_eq!(parse("create table t (primary key x);"), Err(failure("Key", "x", 6)));
    assert_eq!(parse("create table t (primary key ());"), Err(failure("KeyListBegin", ")", 7)));
    assert_eq!(parse("create table t (primary key (x y));"), Err(failure("KeyName", "y", 8)));
    assert_eq!(parse("create table t (primary key (x) y);"), Err(failure("KeyListEnd", "y", 9)));
}

#[test]
fn create_index_fails_after_the_keyword() {
    assert_eq!(parse("CREATE INDEX i ON t (x);"), Err(failure("Index", "i", 2)));
    assert_eq!(parse("create index"), Err(failure("Index", "<eof>", 2)));
    assert_eq!(parse("create index;"), Err(failure("Index", ";", 2)));
    assert_eq!(
        parse("create table t (x integer); create index i on t (x);"),
        Err(failure("Index", "i", 10))
    );
}

#[test]
fn truncated_input_fails_at_its_end() {
    let source = "create table t (x numeric(4,2) not null, primary key (x));";
    let tokens = lex(source);
    for cut in 1..tokens.len() {
        let result = parse_sql_schema(tokens[..cut].to_vec());
        let e = result.unwrap_err();
        assert_eq!(e.location, cut);
        assert_eq!(e.token, "<eof>");
    }
    assert!(parse_sql_schema(tokens).is_ok());
}

#[test]
fn truncated_input_names_the_state() {
    assert_eq!(parse("create"), Err(failure("Create", "<eof>", 1)));
    assert_eq!(parse("create table"), Err(failure("Table", "<eof>", 2)));
    assert_eq!(parse("create table t"), Err(failure("CreateTableBegin", "<eof>", 3)));
    assert_eq!(parse("create table t (x integer"), Err(failure("AttributeType", "<eof>", 6)));
    assert_eq!(parse("create table t (x integer)"), Err(failure("CreateTableEnd", "<eof>", 7)));
    assert_eq!(parse("create table t (x char(2"), Err(failure("AttributeTypeArgs", "<eof>", 8)));
}

#[test]
fn parsing_twice_gives_equal_schemas() {
    let source = "create table a (x integer, y char(2)); create table b (z timestamp);";
    let first = parse(source).unwrap();
    let second = parse(source).unwrap();
    assert_eq!(first, second);
    assert_eq!(parse("create table"), parse("create table"));
}

#[test]
fn empty_input_gives_an_empty_schema() {
    assert_eq!(parse(""), Ok(Schema::new()));
    assert_eq!(parse_sql_schema(vec![Token::Eof]), Ok(Schema::new()));
}

#[test]
fn relation_name_may_be_a_string_literal() {
    let schema = parse("create table \"order\" (o_id integer not null);").unwrap();
    assert_eq!(schema.relations, vec![relation("Order", &["o_id"])]);
}

#[test]
fn relation_name_is_capitalized() {
    assert_eq!(capitalize("warehouse"), "Warehouse");
    assert_eq!(capitalize("Warehouse"), "Warehouse");
    assert_eq!(capitalize("w"), "W");
    assert_eq!(capitalize("_x"), "_x");
    assert_eq!(capitalize(""), "");
    assert_eq!(capitalize("\u{e9}t\u{e9}"), "\u{c9}t\u{e9}");
    assert_eq!(capitalize("\u{df}a"), "SSa");
    assert_eq!(replace_head("table", "X".to_string()), "Xable");
    assert_eq!(replace_head("", "X".to_string()), "X");
}

#[test]
fn opening_parenthesis_is_optional() {
    let schema = parse("create table t x integer);").unwrap();
    assert_eq!(schema.relations, vec![relation("T", &["x"])]);
}

#[test]
fn statement_must_start_with_create() {
    assert_eq!(parse("table t (x integer);"), Err(failure("Init", "table", 0)));
    assert_eq!(parse("create table t (x integer); drop"), Err(failure("Semicolon", "drop", 8)));
    assert_eq!(parse("create view"), Err(failure("Create", "view", 1)));
    assert_eq!(parse(";"), Err(failure("Init", ";", 0)));
}

#[test]
fn unexpected_tokens() {
    assert_eq!(parse("create table 5"), Err(failure("Table", "5", 2)));
    assert_eq!(parse("create table t (x);"), Err(failure("AttributeName", ")", 5)));
    assert_eq!(parse("create table t (x blob);"), Err(failure("AttributeName", "blob", 5)));
    assert_eq!(parse("create table t (x integer not);"), Err(failure("Not", ")", 7)));
    assert_eq!(parse("create table t (x integer not null null);"), Err(failure("Null", "null", 8)));
    assert_eq!(parse("create table t (x integer) create"), Err(failure("CreateTableEnd", "create", 7)));
    assert_eq!(parse("create table t (\"x\" integer);"), Err(failure("CreateTableBegin", "\"x\"", 4)));
    assert_eq!(parse("create table t (x integer, 7);"), Err(failure("Separator", "7", 7)));
    assert_eq!(parse("create table t (x integer + y);"), Err(failure("AttributeType", "+", 6)));
}

#[test]
fn no_partial_schema_on_failure() {
    let result = parse("create table a (x integer); create table b (y);");
    assert_eq!(result, Err(failure("AttributeName", ")", 13)));
}

#[test]
fn message_names_token_and_state() {
    let e = parse("CREATE TABLE t (x numeric(4,2 not null);").unwrap_err();
    assert_eq!(e.message(), "Unexpected token 'not' at state 'AttributeTypeArgs'");
    let e = parse("create table t (x integer").unwrap_err();
    assert_eq!(e.message(), "Unexpected token '<eof>' at state 'AttributeType'");
}

#[test]
fn error_state_carries_the_message() {
    let mut parser = Parser::new(lex("create table"));
    let mut schema = Schema::new();
    let state = parse_next_token(&mut parser, ParserState::Index, &mut schema);
    assert_eq!(
        state,
        ParserState::Error("Unexpected token 'create' at state 'Index'".to_string())
    );
    assert_eq!(parser.position(), 0);
    let state = err(&parser, ParserState::KeyName);
    assert_eq!(
        state,
        ParserState::Error("Unexpected token 'create' at state 'KeyName'".to_string())
    );
    let state = parse_next_token(&mut parser, state, &mut schema);
    assert_eq!(
        state,
        ParserState::Error("Unexpected token 'create' at state 'Error'".to_string())
    );
}

#[test]
fn step_by_step() {
    let mut parser = Parser::new(lex("create table t (x char(2) not null);"));
    let mut schema = Schema::new();
    let mut state = ParserState::Init;
    let mut trace = Vec::new();
    while !parser.at_eof() {
        state = parse_next_token(&mut parser, state, &mut schema);
        trace.push((format!("{:?}", state), parser.position()));
    }
    let expected = vec![
        ("Create", 1),
        ("Table", 2),
        ("TableName", 3),
        ("CreateTableBegin", 4),
        ("AttributeName", 5),
        ("AttributeType(Char(0))", 6),
        ("AttributeTypeArgs(Char(0))", 7),
        ("AttributeTypeArgsEnd", 9),
        ("Not", 10),
        ("Null", 11),
        ("CreateTableEnd", 12),
        ("Semicolon", 13),
    ];
    let expected: Vec<(String, usize)> =
        expected.into_iter().map(|(s, p)| (s.to_string(), p)).collect();
    assert_eq!(trace, expected);
    assert_eq!(schema.relations, vec![relation("T", &["x"])]);
}

#[test]
fn state_names() {
    assert_eq!(ParserState::Init.name(), "Init");
    assert_eq!(ParserState::AttributeType(ColumnType::Numeric(0, 0)).name(), "AttributeType");
    assert_eq!(ParserState::AttributeTypeArgs(ColumnType::Char(0)).name(), "AttributeTypeArgs");
    assert_eq!(ParserState::Error(String::new()).name(), "Error");
    assert_eq!(ParserState::NumericValue1.name(), "NumericValue1");
    assert!(ParserState::Init.accepting());
    assert!(ParserState::Semicolon.accepting());
    assert!(!ParserState::CreateTableEnd.accepting());
}

#[test]
fn classifier_vocabulary() {
    let word = |s: &str| SqlKeyword::parse_keywords(&Token::Ident(s.to_string()));
    assert_eq!(word("primary"), Some(SqlKeyword::Primary));
    assert_eq!(word("key"), Some(SqlKeyword::Key));
    assert_eq!(word("create"), Some(SqlKeyword::Create));
    assert_eq!(word("table"), Some(SqlKeyword::Table));
    assert_eq!(word("index"), Some(SqlKeyword::Index));
    assert_eq!(word("on"), Some(SqlKeyword::On));
    assert_eq!(word("not"), Some(SqlKeyword::Not));
    assert_eq!(word("null"), Some(SqlKeyword::Null));
    assert_eq!(word("integer"), Some(SqlKeyword::TypeKeyword(ColumnType::Integer)));
    assert_eq!(word("timestamp"), Some(SqlKeyword::TypeKeyword(ColumnType::Timestamp)));
    assert_eq!(word("numeric"), Some(SqlKeyword::TypeKeyword(ColumnType::Numeric(0, 0))));
    assert_eq!(word("char"), Some(SqlKeyword::TypeKeyword(ColumnType::Char(0))));
    assert_eq!(word("varchar"), Some(SqlKeyword::TypeKeyword(ColumnType::Varchar(0))));
    assert_eq!(word("PRIMARY"), Some(SqlKeyword::Primary));
    assert_eq!(word("VarChar"), Some(SqlKeyword::TypeKeyword(ColumnType::Varchar(0))));
    assert_eq!(word("w_id"), None);
    assert_eq!(word("creat"), None);
    assert_eq!(word("created"), None);
    assert_eq!(word(""), None);
    assert_eq!(word("\u{212a}ey"), None);
}

#[test]
fn only_identifiers_are_keywords() {
    assert_eq!(SqlKeyword::parse_keywords(&Token::Str("create".to_string())), None);
    assert_eq!(SqlKeyword::parse_keywords(&Token::Other("create".to_string())), None);
    assert_eq!(SqlKeyword::parse_keywords(&Token::Int(1)), None);
    assert_eq!(SqlKeyword::parse_keywords(&Token::Eof), None);
    assert!(SqlKeyword::is_keyword(&Token::Ident("Table".to_string()), SqlKeyword::Table));
    assert!(!SqlKeyword::is_keyword(&Token::Ident("Table".to_string()), SqlKeyword::Create));
    assert!(!SqlKeyword::is_keyword(&Token::LParen, SqlKeyword::Create));
}

#[test]
fn cursor_tests_and_eats() {
    let mut parser = Parser::new(lex("create char ( x"));
    assert!(parser.is_sql_keyword(SqlKeyword::Create));
    assert!(!parser.is_sql_keyword(SqlKeyword::Table));
    assert_eq!(parser.position(), 0);
    assert!(!parser.eat_sql_keyword(SqlKeyword::Table));
    assert_eq!(parser.position(), 0);
    assert!(parser.eat_sql_keyword(SqlKeyword::Create));
    assert_eq!(parser.position(), 1);
    assert_eq!(parser.eat_sql_type_keyword(), Some(ColumnType::Char(0)));
    assert_eq!(parser.position(), 2);
    assert_eq!(parser.eat_sql_type_keyword(), None);
    assert!(parser.check(&Token::LParen));
    assert!(!parser.eat(&Token::RParen));
    assert!(parser.eat(&Token::LParen));
    assert_eq!(parser.peek(), Some(&Token::Ident("x".to_string())));
    assert_eq!(parser.this_token_to_string(), "x");
    parser.bump();
    assert!(parser.at_eof());
    assert_eq!(parser.peek(), None);
    parser.bump();
    assert_eq!(parser.position(), 4);
    assert_eq!(parser.this_token_to_string(), "<eof>");
    assert!(parser.check(&Token::Eof));
}

#[test]
fn token_texts() {
    assert_eq!(Token::Ident("w_id".to_string()).to_text(), "w_id");
    assert_eq!(Token::Str("order".to_string()).to_text(), "\"order\"");
    assert_eq!(Token::Int(0).to_text(), "0");
    assert_eq!(Token::Int(500).to_text(), "500");
    assert_eq!(Token::Int(u64::MAX).to_text(), "18446744073709551615");
    assert_eq!(Token::LParen.to_text(), "(");
    assert_eq!(Token::RParen.to_text(), ")");
    assert_eq!(Token::Comma.to_text(), ",");
    assert_eq!(Token::Semi.to_text(), ";");
    assert_eq!(Token::Other("+".to_string()).to_text(), "+");
    assert_eq!(Token::Eof.to_text(), "<eof>");
    assert_eq!(decimal_string(1234567890), "1234567890");
    assert!(Token::Int(4).same(&Token::Int(4)));
    assert!(!Token::Int(4).same(&Token::Int(5)));
    assert!(!Token::Ident("a".to_string()).same(&Token::Str("a".to_string())));
    assert_eq!(Token::Str("a".to_string()).clone(), Token::Str("a".to_string()));
}

#[test]
fn matches_word_folds_ascii_letters_only() {
    let text: Vec<char> = "CrEaTe".chars().collect();
    assert!(matches_word(&text, "create"));
    assert!(!matches_word(&text, "creat"));
    assert!(!matches_word(&text, "create2"));
    assert!(!matches_word(&text, "CREATE"));
}

#[test]
fn order_processing_schema() {
    let source = "create table warehouse (
           w_id integer not null,
           w_name varchar(10) not null,
           w_street_1 varchar(20) not null,
           w_street_2 varchar(20) not null,
           w_city varchar(20) not null,
           w_state char(2) not null,
           w_zip char(9) not null,
           w_tax numeric(4,4) not null,
           w_ytd numeric(12,2) not null,
           primary key (w_id)
        );

        create table history (
           h_c_id integer not null,
           h_c_d_id integer not null,
           h_c_w_id integer not null,
           h_d_id integer not null,
           h_w_id integer not null,
           h_date timestamp not null,
           h_amount numeric(6,2) not null,
           h_data varchar(24) not null
        );

        create table neworder (
           no_o_id integer not null,
           no_d_id integer not null,
           no_w_id integer not null,
           primary key (no_w_id,no_d_id,no_o_id)
        );

        create table \"order\" (
           o_id integer not null,
           o_d_id integer not null,
           o_w_id integer not null,
           o_c_id integer not null,
           o_entry_d timestamp not null,
           o_carrier_id integer not null,
           o_ol_cnt numeric(2,0) not null,
           o_all_local numeric(1,0) not null,
           primary key (o_w_id,o_d_id,o_id)
        );";
    let schema = parse(source).unwrap();
    assert_eq!(
        schema.relations,
        vec![
            relation(
                "Warehouse",
                &[
                    "w_id", "w_name", "w_street_1", "w_street_2", "w_city", "w_state", "w_zip",
                    "w_tax", "w_ytd",
                ],
            ),
            relation(
                "History",
                &[
                    "h_c_id", "h_c_d_id", "h_c_w_id", "h_d_id", "h_w_id", "h_date", "h_amount",
                    "h_data",
                ],
            ),
            relation("Neworder", &["no_o_id", "no_d_id", "no_w_id"]),
            relation(
                "Order",
                &[
                    "o_id", "o_d_id", "o_w_id", "o_c_id", "o_entry_d", "o_carrier_id",
                    "o_ol_cnt", "o_all_local",
                ],
            ),
        ]
    );
}

#[test]
fn schema_is_built_in_place() {
    let mut schema = Schema::new();
    schema.add_relation("A".to_string());
    schema.add_column("x".to_string());
    schema.add_relation("B".to_string());
    schema.add_column("y".to_string());
    schema.add_column("z".to_string());
    assert_eq!(schema.relations, vec![relation("A", &["x"]), relation("B", &["y", "z"])]);
    let mut r = Relation::new("R".to_string());
    assert_eq!(r, relation("R", &[]));
    r.push(Column::new("c".to_string()));
    assert_eq!(r, relation("R", &["c"]));
}

#[test]
fn table_without_items() {
    let schema = parse("create table t ();").unwrap();
    assert_eq!(schema.relations, vec![relation("T", &[])]);
    let schema = parse("create table t (x integer,);").unwrap();
    assert_eq!(schema.relations, vec![relation("T", &["x"])]);
}

#[test]
fn stream_ends_at_an_end_of_stream_token() {
    let mut tokens = lex("create table t (x integer);");
    tokens.push(Token::Eof);
    tokens.extend(lex("create index"));
    let schema = parse_sql_schema(tokens).unwrap();
    assert_eq!(schema.relations, vec![relation("T", &["x"])]);
    let mut tokens = lex("create table t");
    tokens.push(Token::Eof);
    tokens.extend(lex("(x integer);"));
    assert_eq!(parse_sql_schema(tokens), Err(failure("CreateTableBegin", "<eof>", 3)));
}

#[test]
fn column_named_like_a_keyword() {
    let schema = parse("create table t (create integer, table char(1), key timestamp);").unwrap();
    assert_eq!(schema.relations, vec![relation("T", &["create", "table", "key"])]);
    assert_eq!(parse("create table t (primary integer);"), Err(failure("Primary", "integer", 5)));
    let schema = parse("create table primary (x integer, primary key (key, primary));").unwrap();
    assert_eq!(schema.relations, vec![relation("Primary", &["x"])]);
}
