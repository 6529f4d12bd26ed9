//! Tolerant parsing of JSON-like tool calls produced by language models.
pub mod scanner;
pub mod repair;
pub mod normalize;
pub mod sanitize;
pub mod pipeline;
pub mod detect;
pub mod parse;
pub mod lexing;
