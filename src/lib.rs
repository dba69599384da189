//! Static schema reflection: declarations of records and tagged unions are
//! parsed, turned into a metadata tree, and flattened for presentation.
pub mod accounts;
pub mod declaration;
pub mod editions;
pub mod generator;
pub mod lemmas;
pub mod lexer;
pub mod model;
pub mod names;
pub mod parser;
pub mod schema;
