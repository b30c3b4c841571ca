use vstd::prelude::*;
use crate::ast::Expr;
use crate::arith::{add_bits, sub_bits, mul_bits, div_bits, neg_bits};
use crate::eval::{EvalError, eval_spec, eval_args_spec, lookup_var, lookup_fn, call_frame,
    decl_entry};

verus! {

/// A literal evaluates to its own value, in any environments.
pub proof fn lemma_eval_literal(
    fuel: nat,
    x: u64,
    vars: Seq<(String, u64)>,
    funcs: Seq<(String, Seq<String>, Expr)>,
)
    requires
        fuel >= 1,
    ensures
        eval_spec(fuel, Expr::Literal(x), vars, funcs) == Ok::<u64, EvalError>(x),
{
}

/// When the operand of a negation evaluates to a value, the negation
/// evaluates to the IEEE-754 negation of that value.
pub proof fn lemma_eval_neg(
    fuel: nat,
    e: Expr,
    vars: Seq<(String, u64)>,
    funcs: Seq<(String, Seq<String>, Expr)>,
    x: u64,
)
    requires
        fuel >= 1,
        e matches Expr::Neg(a) && eval_spec((fuel - 1) as nat, *a, vars, funcs) == Ok::<
            u64,
            EvalError,
        >(x),
    ensures
        eval_spec(fuel, e, vars, funcs) == Ok::<u64, EvalError>(neg_bits(x)),
{
}

/// When both operands of a sum evaluate to values, the sum evaluates to
/// their IEEE-754 sum.
pub proof fn lemma_eval_add(
    fuel: nat,
    e: Expr,
    vars: Seq<(String, u64)>,
    funcs: Seq<(String, Seq<String>, Expr)>,
    x: u64,
    y: u64,
)
    requires
        fuel >= 1,
        e matches Expr::Add(a, b) && eval_spec((fuel - 1) as nat, *a, vars, funcs) == Ok::<
            u64,
            EvalError,
        >(x) && eval_spec((fuel - 1) as nat, *b, vars, funcs) == Ok::<u64, EvalError>(y),
    ensures
        eval_spec(fuel, e, vars, funcs) == Ok::<u64, EvalError>(add_bits(x, y)),
{
}

/// When both operands of a difference evaluate to values, the difference
/// evaluates to their IEEE-754 difference.
pub proof fn lemma_eval_sub(
    fuel: nat,
    e: Expr,
    vars: Seq<(String, u64)>,
    funcs: Seq<(String, Seq<String>, Expr)>,
    x: u64,
    y: u64,
)
    requires
        fuel >= 1,
        e matches Expr::Sub(a, b) && eval_spec((fuel - 1) as nat, *a, vars, funcs) == Ok::<
            u64,
            EvalError,
        >(x) && eval_spec((fuel - 1) as nat, *b, vars, funcs) == Ok::<u64, EvalError>(y),
    ensures
        eval_spec(fuel, e, vars, funcs) == Ok::<u64, EvalError>(sub_bits(x, y)),
{
}

/// When both operands of a product evaluate to values, the product evaluates
/// to their IEEE-754 product.
pub proof fn lemma_eval_mul(
    fuel: nat,
    e: Expr,
    vars: Seq<(String, u64)>,
    funcs: Seq<(String, Seq<String>, Expr)>,
    x: u64,
    y: u64,
)
    requires
        fuel >= 1,
        e matches Expr::Mul(a, b) && eval_spec((fuel - 1) as nat, *a, vars, funcs) == Ok::<
            u64,
            EvalError,
        >(x) && eval_spec((fuel - 1) as nat, *b, vars, funcs) == Ok::<u64, EvalError>(y),
    ensures
        eval_spec(fuel, e, vars, funcs) == Ok::<u64, EvalError>(mul_bits(x, y)),
{
}

/// When both operands of a quotient evaluate to values, the quotient
/// evaluates to their IEEE-754 quotient — also when the divisor is zero,
/// where IEEE-754 division yields an infinity or a NaN, never an error.
pub proof fn lemma_eval_div(
    fuel: nat,
    e: Expr,
    vars: Seq<(String, u64)>,
    funcs: Seq<(String, Seq<String>, Expr)>,
    x: u64,
    y: u64,
)
    requires
        fuel >= 1,
        e matches Expr::Div(a, b) && eval_spec((fuel - 1) as nat, *a, vars, funcs) == Ok::<
            u64,
            EvalError,
        >(x) && eval_spec((fuel - 1) as nat, *b, vars, funcs) == Ok::<u64, EvalError>(y),
    ensures
        eval_spec(fuel, e, vars, funcs) == Ok::<u64, EvalError>(div_bits(x, y)),
{
}

/// A variable reference with no binding of its name in scope fails with
/// `UnboundVariable` carrying that name.
pub proof fn lemma_eval_unbound_var(
    fuel: nat,
    e: Expr,
    vars: Seq<(String, u64)>,
    funcs: Seq<(String, Seq<String>, Expr)>,
)
    requires
        fuel >= 1,
        e is Var,
        lookup_var(vars, e->Var_0@) is None,
    ensures
        eval_spec(fuel, e, vars, funcs) == Err::<u64, EvalError>(
            EvalError::UnboundVariable(e->Var_0),
        ),
{
}

/// A variable reference evaluates to the value of the newest binding of its
/// name.
pub proof fn lemma_eval_bound_var(
    fuel: nat,
    e: Expr,
    vars: Seq<(String, u64)>,
    funcs: Seq<(String, Seq<String>, Expr)>,
    v: u64,
)
    requires
        fuel >= 1,
        e is Var,
        lookup_var(vars, e->Var_0@) == Some(v),
    ensures
        eval_spec(fuel, e, vars, funcs) == Ok::<u64, EvalError>(v),
{
}

/// Shadowing: after pushing a binding, a lookup of that name finds it, even
/// if an older binding of the same name is still in the environment.
pub proof fn lemma_lookup_shadow(env: Seq<(String, u64)>, name: String, v: u64)
    ensures
        lookup_var(env.push((name, v)), name@) == Some(v),
{
}

/// A pushed binding leaves lookups of every other name unchanged.
pub proof fn lemma_lookup_other(env: Seq<(String, u64)>, entry: (String, u64), name: Seq<char>)
    requires
        entry.0@ != name,
    ensures
        lookup_var(env.push(entry), name) == lookup_var(env, name),
{
    assert(env.push(entry).drop_last() =~= env);
}

/// Calling a name with no declaration in scope fails with
/// `UndefinedFunction` carrying that name.
pub proof fn lemma_eval_undefined_fn(
    fuel: nat,
    e: Expr,
    vars: Seq<(String, u64)>,
    funcs: Seq<(String, Seq<String>, Expr)>,
)
    requires
        fuel >= 1,
        e is Call,
        lookup_fn(funcs, e->Call_0@) is None,
    ensures
        eval_spec(fuel, e, vars, funcs) == Err::<u64, EvalError>(
            EvalError::UndefinedFunction(e->Call_0),
        ),
{
}

/// Calling a declared function with the wrong number of arguments fails
/// with `ArityMismatch` carrying the name, the declared parameter count and
/// the supplied argument count — before any argument is evaluated.
pub proof fn lemma_eval_arity_mismatch(
    fuel: nat,
    e: Expr,
    vars: Seq<(String, u64)>,
    funcs: Seq<(String, Seq<String>, Expr)>,
)
    requires
        fuel >= 1,
        e is Call,
        lookup_fn(funcs, e->Call_0@) is Some,
        lookup_fn(funcs, e->Call_0@)->Some_0.0.len() != e->Call_1@.len(),
    ensures
        eval_spec(fuel, e, vars, funcs) == Err::<u64, EvalError>(
            EvalError::ArityMismatch(
                e->Call_0,
                lookup_fn(funcs, e->Call_0@)->Some_0.0.len() as usize,
                e->Call_1@.len() as usize,
            ),
        ),
{
}

/// Fuel only bounds depth, it never picks results: an evaluation that does
/// not run out of depth gives the same result under every larger budget.
pub proof fn lemma_eval_fuel_monotone(
    f1: nat,
    f2: nat,
    e: Expr,
    vars: Seq<(String, u64)>,
    funcs: Seq<(String, Seq<String>, Expr)>,
)
    requires
        f1 <= f2,
        eval_spec(f1, e, vars, funcs) != Err::<u64, EvalError>(EvalError::DepthLimit),
    ensures
        eval_spec(f2, e, vars, funcs) == eval_spec(f1, e, vars, funcs),
    decreases f1, 0int,
{
    if f1 == 0 || f1 == f2 {
        // with no fuel the result is the excluded DepthLimit; equal budgets
        // are immediate
    } else {
        let g1 = (f1 - 1) as nat;
        let g2 = (f2 - 1) as nat;
        match e {
            Expr::Neg(a) => {
                lemma_eval_fuel_monotone(g1, g2, *a, vars, funcs);
            },
            Expr::Add(a, b) | Expr::Sub(a, b) | Expr::Mul(a, b) | Expr::Div(a, b) => {
                lemma_eval_fuel_monotone(g1, g2, *a, vars, funcs);
                if eval_spec(g1, *a, vars, funcs) is Ok {
                    lemma_eval_fuel_monotone(g1, g2, *b, vars, funcs);
                }
            },
            Expr::Let { name, rhs, then } => {
                lemma_eval_fuel_monotone(g1, g2, *rhs, vars, funcs);
                match eval_spec(g1, *rhs, vars, funcs) {
                    Ok(v) => {
                        lemma_eval_fuel_monotone(g1, g2, *then, vars.push((name, v)), funcs);
                    },
                    Err(_) => {},
                }
            },
            Expr::Call(name, args) => {
                match lookup_fn(funcs, name@) {
                    Some(def) => {
                        if def.0.len() == args@.len() {
                            lemma_args_fuel_monotone(g1, g2, args@, 0, vars, funcs);
                            match eval_args_spec(g1, args@, 0, vars, funcs) {
                                Ok(vals) => {
                                    lemma_eval_fuel_monotone(
                                        g1,
                                        g2,
                                        def.1,
                                        vars + call_frame(def.0, vals),
                                        funcs,
                                    );
                                },
                                Err(_) => {},
                            }
                        }
                    },
                    None => {},
                }
            },
            Expr::FnDecl { .. } => {
                lemma_eval_fuel_monotone(g1, g2, *e->FnDecl_then, vars, funcs.push(decl_entry(e)));
            },
            Expr::Literal(_) | Expr::Var(_) | Expr::Reserved => {},
        }
    }
}

/// Fuel monotonicity for an argument list: values and errors other than
/// `DepthLimit` are stable under every larger budget.
pub proof fn lemma_args_fuel_monotone(
    f1: nat,
    f2: nat,
    args: Seq<Expr>,
    i: int,
    vars: Seq<(String, u64)>,
    funcs: Seq<(String, Seq<String>, Expr)>,
)
    requires
        f1 <= f2,
        eval_args_spec(f1, args, i, vars, funcs) != Err::<Seq<u64>, EvalError>(
            EvalError::DepthLimit,
        ),
    ensures
        eval_args_spec(f2, args, i, vars, funcs) == eval_args_spec(f1, args, i, vars, funcs),
    decreases f1, args.len() - i,
{
    if 0 <= i < args.len() && f1 != f2 {
        lemma_eval_fuel_monotone(f1, f2, args[i], vars, funcs);
        if eval_spec(f1, args[i], vars, funcs) is Ok {
            lemma_args_fuel_monotone(f1, f2, args, i + 1, vars, funcs);
        }
    }
}

/// Arguments are evaluated left to right: when every argument before `i`
/// evaluates to a value and argument `i` fails, the whole argument list
/// fails with exactly argument `i`'s error.
pub proof fn lemma_args_first_error(
    fuel: nat,
    args: Seq<Expr>,
    k: int,
    i: int,
    vars: Seq<(String, u64)>,
    funcs: Seq<(String, Seq<String>, Expr)>,
    err: EvalError,
)
    requires
        0 <= k <= i < args.len(),
        forall|j: int|
            k <= j < i ==> #[trigger] eval_spec(fuel, args[j], vars, funcs) is Ok,
        eval_spec(fuel, args[i], vars, funcs) == Err::<u64, EvalError>(err),
    ensures
        eval_args_spec(fuel, args, k, vars, funcs) == Err::<Seq<u64>, EvalError>(err),
    decreases i - k,
{
    if k < i {
        lemma_args_first_error(fuel, args, k + 1, i, vars, funcs, err);
        assert(eval_spec(fuel, args[k], vars, funcs) is Ok);
    }
}

/// Diagnostic ordering of a call's failures is left to right: when the
/// callee is declared with matching arity, every argument before `i`
/// evaluates to a value and argument `i` fails, the call fails with exactly
/// argument `i`'s error — no frame ever becomes visible, since evaluation
/// hands environments back unchanged on every path.
pub proof fn lemma_call_reports_first_arg_error(
    fuel: nat,
    e: Expr,
    i: int,
    vars: Seq<(String, u64)>,
    funcs: Seq<(String, Seq<String>, Expr)>,
    err: EvalError,
)
    requires
        fuel >= 1,
        e is Call,
        lookup_fn(funcs, e->Call_0@) is Some,
        lookup_fn(funcs, e->Call_0@)->Some_0.0.len() == e->Call_1@.len(),
        0 <= i < e->Call_1@.len(),
        forall|j: int|
            0 <= j < i ==> #[trigger] eval_spec((fuel - 1) as nat, e->Call_1@[j], vars, funcs)
                is Ok,
        eval_spec((fuel - 1) as nat, e->Call_1@[i], vars, funcs) == Err::<u64, EvalError>(err),
    ensures
        eval_spec(fuel, e, vars, funcs) == Err::<u64, EvalError>(err),
{
    lemma_args_first_error((fuel - 1) as nat, e->Call_1@, 0, i, vars, funcs, err);
}

} // verus!
