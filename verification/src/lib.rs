//! Transpiles a small subset of Solidity-style contract syntax into the
//! Compact contract language.
//!
//! The crate takes an already-parsed abstract syntax tree (the [`ast`]
//! module's types), together with the source's comment list and an optional
//! project configuration, and renders a Compact source document: a pragma
//! line resolved from the comments or the configuration, an import line per
//! contract, persistent `ledger` declarations for top-level state variables,
//! and a `circuit` block per function.

pub mod ast;
pub mod compact;
pub mod format;
pub mod laws;
pub mod printer;
pub mod transpile;
pub mod strutil;
