//! A scanner for a small dynamically-typed scripting language: source text in,
//! an ordered sequence of typed, positioned tokens out.

pub mod token_type;
pub mod token;
pub mod grammar;
pub mod chars;
pub mod lexer;
pub mod laws;
pub mod parser;
pub mod lox;
