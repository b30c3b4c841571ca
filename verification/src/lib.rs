//! A verified tree-walking evaluator for a small expression language with
//! IEEE-754 double-precision arithmetic, lexically scoped `let`-bindings and
//! user-declared functions.
//!
//! Numbers travel as their 64-bit representation; the trusted arithmetic
//! wrappers live in [`arith`], the expression tree in [`ast`], the evaluator
//! and its denotational specification in [`eval`], and the proved laws of
//! the language in [`laws`].

pub mod arith;
pub mod ast;
pub mod eval;
pub mod laws;
