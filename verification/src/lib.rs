//! A mid-level intermediate representation (MIR) for a small ahead-of-time
//! language implementation: the layer between a parsed program and code
//! generation or direct execution.
//!
//! The crate provides:
//! - a type arena with stable, copyable handles ([`ty`]),
//! - the instruction vocabulary of one function body ([`inst`]),
//! - a builder that stages one function's block graph ([`builder`]),
//! - a program container owning all declarations and definitions
//!   ([`program`]),
//! - an execution engine with a mathematical semantics that the
//!   interpreter is proved to implement ([`eval`]),
//! - a read-only diagnostic printer returning a textual dump ([`printer`]).
//!
//! A frontend drives lowering exclusively through the [`program::Mir`] and
//! [`builder::FunctionBuilder`] interfaces; once every definition is
//! installed, the program is run through [`program::Mir::run`] or dumped
//! through [`program::Mir::print`].

pub mod builder;
pub mod eval;
pub mod printer;
pub mod inst;
pub mod program;
pub mod ty;
