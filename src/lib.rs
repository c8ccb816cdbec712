//! Tokenizer for a line-oriented document notation: fields, lists, fieldsets,
//! sections, verbatim blocks, continuations, comments and copy directives.
//!
//! Each line of the input becomes one instruction whose ranges are byte spans
//! relative to the line start. Lines that follow no shape of the notation,
//! and blocks that are never closed, are reported as diagnostics.
pub mod boundaries;
pub mod grammar_regex;
pub mod messages;
pub mod parser;
pub mod properties;
pub mod shapes;
pub mod tokenizer;
