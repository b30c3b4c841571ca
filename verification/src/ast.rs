use vstd::prelude::*;
use std::rc::Rc;

verus! {

/// An expression tree for a small numeric language.
///
/// Numbers are IEEE-754 double-precision values, carried everywhere as their
/// 64-bit representation (`u64`): the evaluator itself never inspects the
/// bits, it only hands pairs of them to the arithmetic operations.
///
/// `Let` binds a name for its continuation (`then`); `FnDecl` declares a
/// function for its continuation; `Call` applies a declared function to
/// argument expressions. `Reserved` stands for expression forms kept for
/// future extension: evaluating one fails explicitly rather than returning a
/// default.
#[derive(Debug)]
pub enum Expr {
    /// A literal number, as its IEEE-754 bit pattern.
    Literal(u64),
    /// Arithmetic negation of the operand.
    Neg(Box<Expr>),
    /// Sum of the two operands, left evaluated first.
    Add(Box<Expr>, Box<Expr>),
    /// Difference of the two operands, left evaluated first.
    Sub(Box<Expr>, Box<Expr>),
    /// Product of the two operands, left evaluated first.
    Mul(Box<Expr>, Box<Expr>),
    /// Quotient of the two operands, left evaluated first. Division by zero
    /// follows IEEE-754 semantics (infinity or NaN), it is not an error.
    Div(Box<Expr>, Box<Expr>),
    /// A variable reference by name.
    Var(String),
    /// `Let { name, rhs, then }`: evaluate `rhs` in the current environment
    /// (the binding is not visible to itself), then evaluate `then` with
    /// `name` bound to the result. The binding is visible only within `then`.
    Let { name: String, rhs: Box<Expr>, then: Box<Expr> },
    /// A call of a declared function: name and ordered argument expressions.
    Call(String, Vec<Expr>),
    /// `FnDecl { name, params, body, then }`: declare a function and evaluate
    /// `then` with it in scope. The body is shared, not copied, between the
    /// tree and the function environment.
    FnDecl { name: String, params: Vec<String>, body: Rc<Expr>, then: Box<Expr> },
    /// A form reserved for future language features.
    Reserved,
}

} // verus!
