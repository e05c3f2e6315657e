//! A scanner, recursive-descent parser and tree-walking evaluator for a small
//! expression language: arithmetic, comparison, equality, logical negation,
//! string concatenation and parenthesised grouping.
//!
//! Numbers are IEEE-754 binary64 values, held as their 64-bit encoding. The
//! library itself negates, compares and tests them; decimal conversion and the
//! rounding arithmetic are supplied by the caller as functions on encodings.

pub mod ast_printer;
pub mod driver;
pub mod error;
pub mod expr;
pub mod grammar;
pub mod interpreter;
pub mod lexical;
pub mod number;
pub mod parser;
pub mod scanner;
pub mod semantics;
pub mod text;
pub mod token;
pub mod token_type;
