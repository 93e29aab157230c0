//! Front end of a small Lisp-family scripting language: a single-pass,
//! single-token-lookahead recursive-descent parser from lexical tokens to an
//! abstract syntax tree.
//!
//! The grammar itself is written down once, as spec functions over the token
//! sequence (`grammar`), and the executable parser (`parser`) is proved to
//! return exactly what those spec functions describe.

pub mod ast;
pub mod diag;
pub mod grammar;
pub mod parser;
pub mod token;

pub use ast::Expr;
pub use grammar::ParseError;
pub use parser::Parser;
pub use token::TKind;
pub use token::TType;
pub use token::Token;
