//! The grammar: one function per production, and the model that their contracts are
//! written over.

pub mod expr;
pub mod grammar;
pub mod model;
pub mod quiet;
pub mod typescript;
pub mod valid;
