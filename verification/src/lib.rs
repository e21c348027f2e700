//! Command interpreter of a line-oriented text editor in the tradition of
//! classic `ed`: one line of operator input becomes a mutation or query
//! against an in-memory sequence of text lines.
//!
//! The crate is organised leaf-first:
//! - [`tokenizer`] splits a trimmed command string into lexical tokens;
//! - [`parser`] resolves the tokens into a structured [`commands::Command`];
//! - [`commands`] executes a command against the editor state;
//! - [`red`] owns the editor state and dispatches raw input lines.
//!
//! File reading and writing, and the interactive read loop, are left to the
//! surrounding program: commands that need a file hand back a request
//! ([`commands::Action::WriteFile`] / [`commands::Action::LoadFile`]) and the
//! surrounding loop feeds the outcome back in.

pub mod cli;
pub mod commands;
pub mod errors;
pub mod laws;
mod output;
pub mod parser;
pub mod pattern;
pub mod red;
pub mod tokenizer;

pub use errors::RedError;
