//! A parser for SQL `CREATE TABLE` schemas, driven token by token as a finite
//! state machine, together with the fixed-point numbers, row types and
//! indexed tables that hold the data such schemas describe.

pub mod text;
pub mod token;
pub mod keyword;
pub mod schema;
pub mod state;
pub mod cursor;
pub mod parser;
pub mod grammar;
pub mod laws;
pub mod numeric;
pub mod fields;
pub mod table;
pub mod tables;
