//! The front end of a compiler for μRust, a small statically typed language
//! with Rust-like syntax: the lexical analyzer, the parser and the abstract
//! syntax tree, with contracts proved by Verus.
//!
//! - [`token`]: positions, spans and tokens.
//! - [`lexer`]: the lexer, which turns the characters of a source text into tokens.
//! - [`ast`]: the abstract syntax tree and the capabilities of its expressions.
//! - [`parser`]: the parser, the model of the grammar that it is proved against, and
//!   what holds of every expression that the grammar reads.
//! - [`view`]: the views of sequences, over which the contracts are stated.

pub mod ast;
pub mod lexer;
pub mod parser;
pub mod token;
pub mod view;
