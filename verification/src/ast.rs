//! The abstract syntax tree of the μRust language.

pub mod crt;
pub mod error;
pub mod expr;
pub mod item;
pub mod node;
pub mod types;
