//! Blur: an interpreter for a language in which every variable holds a
//! decay-weighted average of every value that was ever assigned to it.
//!
//! A source is split into tokens ([`lexer`]) and parsed ([`parser`]) as the
//! [`grammar`] says, into the tree of [`ast`]. The [`interpreter`] walks the
//! tree ([`eval`]) as the [`semantics`] says: every assignment extends a
//! history ([`history`], [`update`]), every read projects a history to a
//! value ([`value`]) by the weighted average of [`average`], and the scopes
//! ([`scope`], [`state`], [`table`]) hold the histories by name. Numbers are
//! binary64 bit patterns ([`number`]) with their text ([`numeral`]). What the
//! model guarantees whatever the program is proved in [`laws`] and
//! [`invariants`]. Source directives ([`directive`]) and what a prompt decides
//! from its input ([`shell`]) complete the library.

pub mod ast;
pub mod average;
pub mod directive;
pub mod error;
pub mod eval;
pub mod grammar;
pub mod history;
pub mod interpreter;
pub mod invariants;
pub mod laws;
pub mod lexer;
pub mod number;
pub mod numeral;
pub mod parser;
pub mod scope;
pub mod semantics;
pub mod shell;
pub mod state;
pub mod table;
pub mod text;
pub mod update;
pub mod value;
