//! An error-tolerant parser for the types of TypeScript.
//!
//! The parser reads tokens and writes a flat log of events, from which a lossless
//! syntax tree is built later. It never stops at an error: it reports a diagnostic,
//! skips to a token at which it can go on, and returns.
//!
//! - [`syntax_kind`], [`token`], [`token_set`]: what the lexer hands over, and sets of
//!   kinds.
//! - [`event`], [`marker`], [`parser`], [`recovery`], [`diagnostic`]: the log, the
//!   handles of its nodes, the cursor, recovery from errors, and error reports.
//! - [`state`]: the state of a parse as a mathematical value; the contracts are
//!   written over it.
//! - [`syntax`]: the productions of the grammar, what each does to the state, and the
//!   language that they accept.
//! - [`laws`]: what holds of every parse.

pub mod diagnostic;
pub mod event;
pub mod laws;
pub mod marker;
pub mod parser;
pub mod recovery;
pub mod state;
pub mod syntax;
pub mod syntax_kind;
pub mod text;
pub mod token;
pub mod token_set;
