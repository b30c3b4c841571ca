use vstd::prelude::*;
use std::rc::Rc;
use crate::ast::Expr;
use crate::arith::{add_bits, sub_bits, mul_bits, div_bits, neg_bits};
use crate::arith::{add_exec, sub_exec, mul_exec, div_exec, neg_exec};

verus! {

/// Why an evaluation failed. Every failure of a sub-expression aborts the
/// whole evaluation and reaches the caller unchanged.
#[derive(Debug, PartialEq, Eq)]
pub enum EvalError {
    /// A variable reference found no binding of that name in scope.
    UnboundVariable(String),
    /// A call named a function with no declaration in scope.
    UndefinedFunction(String),
    /// A call supplied the wrong number of arguments: the function's name,
    /// the declared parameter count, and the count supplied.
    ArityMismatch(String, usize, usize),
    /// A reserved expression form was evaluated before being supported.
    NotImplemented,
    /// The nesting depth of the evaluation exceeded the given budget.
    DepthLimit,
}

/// The variable environment: name/value pairs acting as a stack, newest
/// binding last. A later binding of a name shadows an earlier one.
pub type VarEnv = Vec<(String, u64)>;

/// The function environment: (name, parameters, body) triples acting as a
/// stack with the same shadowing rule as variables. Bodies are shared with
/// the expression tree, not copied.
pub type FnEnv = Vec<(String, Vec<String>, Rc<Expr>)>;

/// What one function-environment entry means: the name's characters, the
/// parameter names, and the body expression.
pub open spec fn fn_entry_model(t: (String, Vec<String>, Rc<Expr>)) -> (String, Seq<String>, Expr) {
    (t.0, t.1@, *t.2)
}

/// What a function environment means, entry by entry.
pub open spec fn fn_env_model(fs: Seq<(String, Vec<String>, Rc<Expr>)>) -> Seq<(String, Seq<String>, Expr)> {
    fs.map_values(|t: (String, Vec<String>, Rc<Expr>)| fn_entry_model(t))
}

/// The value bound to `name`, scanning from the newest binding backward, so
/// that the most recent binding of a name wins.
pub open spec fn lookup_var(env: Seq<(String, u64)>, name: Seq<char>) -> Option<u64>
    decreases env.len(),
{
    if env.len() == 0 {
        None
    } else if env.last().0@ == name {
        Some(env.last().1)
    } else {
        lookup_var(env.drop_last(), name)
    }
}

/// The declaration bound to `name` in the function environment, scanning
/// from the newest declaration backward.
pub open spec fn lookup_fn(env: Seq<(String, Seq<String>, Expr)>, name: Seq<char>) -> Option<(Seq<String>, Expr)>
    decreases env.len(),
{
    if env.len() == 0 {
        None
    } else if env.last().0@ == name {
        Some((env.last().1, env.last().2))
    } else {
        lookup_fn(env.drop_last(), name)
    }
}

/// The scope frame a call pushes: each parameter name paired with the
/// argument value in the same position.
pub open spec fn call_frame(params: Seq<String>, vals: Seq<u64>) -> Seq<(String, u64)> {
    Seq::new(params.len(), |i: int| (params[i], vals[i]))
}

/// The function-environment entry a declaration pushes: its name, its
/// parameter names, and its body.
pub open spec fn decl_entry(e: Expr) -> (String, Seq<String>, Expr)
    recommends
        e is FnDecl,
{
    (e->FnDecl_name, e->FnDecl_params@, *e->FnDecl_body)
}

/// The meaning of evaluating `e` under the two environments, with `fuel`
/// bounding the depth of nested evaluations. Every rule is denotational:
///
/// - a literal is its value; negation and the four binary operators apply
///   IEEE-754 double-precision arithmetic to fully evaluated operands, left
///   operand first;
/// - a variable is the value of its newest binding, or `UnboundVariable`;
/// - a let-binding evaluates its right-hand side in the current environment
///   (the binding is not visible to itself) and its continuation with the
///   binding pushed;
/// - a call evaluates its arguments left to right in the caller's
///   environment, then the body under the caller's variable environment
///   extended with exactly the parameter/value frame; an argument's failure
///   is the call's failure;
/// - a declaration evaluates its continuation with the declaration pushed;
/// - a reserved form fails with `NotImplemented`;
/// - with no fuel left the result is `DepthLimit`.
pub open spec fn eval_spec(
    fuel: nat,
    e: Expr,
    vars: Seq<(String, u64)>,
    funcs: Seq<(String, Seq<String>, Expr)>,
) -> Result<u64, EvalError>
    decreases fuel, 0int,
{
    if fuel == 0 {
        Err(EvalError::DepthLimit)
    } else {
        let f = (fuel - 1) as nat;
        match e {
            Expr::Literal(x) => Ok(x),
            Expr::Neg(a) => match eval_spec(f, *a, vars, funcs) {
                Ok(x) => Ok(neg_bits(x)),
                Err(err) => Err(err),
            },
            Expr::Add(a, b) => match eval_spec(f, *a, vars, funcs) {
                Err(err) => Err(err),
                Ok(x) => match eval_spec(f, *b, vars, funcs) {
                    Err(err) => Err(err),
                    Ok(y) => Ok(add_bits(x, y)),
                },
            },
            Expr::Sub(a, b) => match eval_spec(f, *a, vars, funcs) {
                Err(err) => Err(err),
                Ok(x) => match eval_spec(f, *b, vars, funcs) {
                    Err(err) => Err(err),
                    Ok(y) => Ok(sub_bits(x, y)),
                },
            },
            Expr::Mul(a, b) => match eval_spec(f, *a, vars, funcs) {
                Err(err) => Err(err),
                Ok(x) => match eval_spec(f, *b, vars, funcs) {
                    Err(err) => Err(err),
                    Ok(y) => Ok(mul_bits(x, y)),
                },
            },
            Expr::Div(a, b) => match eval_spec(f, *a, vars, funcs) {
                Err(err) => Err(err),
                Ok(x) => match eval_spec(f, *b, vars, funcs) {
                    Err(err) => Err(err),
                    Ok(y) => Ok(div_bits(x, y)),
                },
            },
            Expr::Var(name) => match lookup_var(vars, name@) {
                Some(v) => Ok(v),
                None => Err(EvalError::UnboundVariable(name)),
            },
            Expr::Let { name, rhs, then } => match eval_spec(f, *rhs, vars, funcs) {
                Err(err) => Err(err),
                Ok(v) => eval_spec(f, *then, vars.push((name, v)), funcs),
            },
            Expr::Call(name, args) => match lookup_fn(funcs, name@) {
                None => Err(EvalError::UndefinedFunction(name)),
                Some(def) => if def.0.len() != args@.len() {
                    Err(EvalError::ArityMismatch(name, def.0.len() as usize, args@.len() as usize))
                } else {
                    match eval_args_spec(f, args@, 0, vars, funcs) {
                        Err(err) => Err(err),
                        Ok(vals) => eval_spec(f, def.1, vars + call_frame(def.0, vals), funcs),
                    }
                },
            },
            Expr::FnDecl { name, params, body, then } =>
                eval_spec(f, *then, vars, funcs.push((name, params@, *body))),
            Expr::Reserved => Err(EvalError::NotImplemented),
        }
    }
}

/// The meaning of evaluating the arguments `args[i..]` left to right: the
/// sequence of their values, or the error of the leftmost argument that
/// fails.
pub open spec fn eval_args_spec(
    fuel: nat,
    args: Seq<Expr>,
    i: int,
    vars: Seq<(String, u64)>,
    funcs: Seq<(String, Seq<String>, Expr)>,
) -> Result<Seq<u64>, EvalError>
    decreases fuel, args.len() - i,
{
    if i < 0 || i >= args.len() {
        Ok(Seq::<u64>::empty())
    } else {
        match eval_spec(fuel, args[i], vars, funcs) {
            Err(err) => Err(err),
            Ok(v) => match eval_args_spec(fuel, args, i + 1, vars, funcs) {
                Err(err) => Err(err),
                Ok(rest) => Ok(seq![v] + rest),
            },
        }
    }
}

/// What an argument-vector result means as a sequence result.
pub open spec fn args_result_model(r: Result<Vec<u64>, EvalError>) -> Result<Seq<u64>, EvalError> {
    match r {
        Ok(vals) => Ok(vals@),
        Err(err) => Err(err),
    }
}

/// An `Ok` argument evaluation yields one value per remaining argument.
proof fn lemma_eval_args_spec_len(
    fuel: nat,
    args: Seq<Expr>,
    i: int,
    vars: Seq<(String, u64)>,
    funcs: Seq<(String, Seq<String>, Expr)>,
)
    requires
        0 <= i <= args.len(),
    ensures
        eval_args_spec(fuel, args, i, vars, funcs) matches Ok(vals) ==> vals.len() == args.len()
            - i,
    decreases args.len() - i,
{
    if i < args.len() {
        lemma_eval_args_spec_len(fuel, args, i + 1, vars, funcs);
    }
}

/// Relies on std's `Rc::clone`, which returns another handle to the same
/// allocation, so the clone is the same expression.
#[verifier::external_body]
fn rc_dup(r: &Rc<Expr>) -> (res: Rc<Expr>)
    ensures
        res == *r,
{
    Rc::clone(r)
}

/// The newest binding of `name` in the variable environment, by a backward
/// scan.
fn lookup_var_exec(env: &VarEnv, name: &String) -> (r: Option<u64>)
    ensures
        r == lookup_var(env@, name@),
{
    let mut j: usize = env.len();
    proof {
        assert(env@.take(j as int) =~= env@);
    }
    while j > 0
        invariant
            j <= env@.len(),
            lookup_var(env@, name@) == lookup_var(env@.take(j as int), name@),
        decreases j,
    {
        j = j - 1;
        proof {
            assert(env@.take(j as int + 1).last() == env@[j as int]);
            assert(env@.take(j as int + 1).drop_last() =~= env@.take(j as int));
        }
        if env[j].0 == *name {
            return Some(env[j].1);
        }
    }
    None
}

/// The newest declaration of `name` in the function environment, by a
/// backward scan; on a match, the parameters and the shared body are handed
/// out.
fn lookup_fn_exec(env: &FnEnv, name: &String) -> (r: Option<(Vec<String>, Rc<Expr>)>)
    ensures
        match r {
            Some(def) => lookup_fn(fn_env_model(env@), name@) == Some((def.0@, *def.1)),
            None => lookup_fn(fn_env_model(env@), name@) is None,
        },
{
    let ghost model = fn_env_model(env@);
    let mut j: usize = env.len();
    proof {
        assert(model.take(j as int) =~= model);
    }
    while j > 0
        invariant
            j <= env@.len(),
            model == fn_env_model(env@),
            lookup_fn(model, name@) == lookup_fn(model.take(j as int), name@),
        decreases j,
    {
        j = j - 1;
        proof {
            assert(model.take(j as int + 1).last() == model[j as int]);
            assert(model.take(j as int + 1).drop_last() =~= model.take(j as int));
        }
        if env[j].0 == *name {
            let params = env[j].1.clone();
            proof {
                assert(params@ =~= env@[j as int].1@);
            }
            return Some((params, rc_dup(&env[j].2)));
        }
    }
    None
}

/// Evaluates `args[i..]` left to right, giving each argument `fuel` depth
/// budget; the environments are handed back as they were.
fn eval_args_exec(
    fuel: u64,
    args: &Vec<Expr>,
    i: usize,
    vars: &mut VarEnv,
    funcs: &mut FnEnv,
) -> (r: Result<Vec<u64>, EvalError>)
    requires
        i <= args@.len(),
    ensures
        final(vars)@ == old(vars)@,
        final(funcs)@ == old(funcs)@,
        args_result_model(r) == eval_args_spec(
            fuel as nat,
            args@,
            i as int,
            old(vars)@,
            fn_env_model(old(funcs)@),
        ),
    decreases fuel, args@.len() - i,
{
    if i == args.len() {
        Ok(Vec::new())
    } else {
        match eval_fueled(fuel, &args[i], vars, funcs) {
            Err(err) => Err(err),
            Ok(v) => match eval_args_exec(fuel, args, i + 1, vars, funcs) {
                Err(err) => Err(err),
                Ok(mut rest) => {
                    let ghost rest0 = rest@;
                    rest.insert(0, v);
                    proof {
                        assert(rest@ =~= seq![v] + rest0);
                    }
                    Ok(rest)
                },
            },
        }
    }
}

/// Evaluates `expr` under the two environments, with `fuel` bounding the
/// depth of nested evaluations. The result is exactly what `eval_spec`
/// states, and both environments are handed back as they were: a binding or
/// a declaration is visible only within the scope that introduced it,
/// whether that scope ends in a value or in an error.
pub fn eval_fueled(
    fuel: u64,
    expr: &Expr,
    vars: &mut VarEnv,
    funcs: &mut FnEnv,
) -> (r: Result<u64, EvalError>)
    ensures
        final(vars)@ == old(vars)@,
        final(funcs)@ == old(funcs)@,
        r == eval_spec(fuel as nat, *expr, old(vars)@, fn_env_model(old(funcs)@)),
    decreases fuel, 0int,
{
    if fuel == 0 {
        return Err(EvalError::DepthLimit);
    }
    let f = fuel - 1;
    match expr {
        Expr::Literal(x) => Ok(*x),
        Expr::Neg(a) => match eval_fueled(f, a, vars, funcs) {
            Ok(x) => Ok(neg_exec(x)),
            Err(err) => Err(err),
        },
        Expr::Add(a, b) => match eval_fueled(f, a, vars, funcs) {
            Err(err) => Err(err),
            Ok(x) => match eval_fueled(f, b, vars, funcs) {
                Err(err) => Err(err),
                Ok(y) => Ok(add_exec(x, y)),
            },
        },
        Expr::Sub(a, b) => match eval_fueled(f, a, vars, funcs) {
            Err(err) => Err(err),
            Ok(x) => match eval_fueled(f, b, vars, funcs) {
                Err(err) => Err(err),
                Ok(y) => Ok(sub_exec(x, y)),
            },
        },
        Expr::Mul(a, b) => match eval_fueled(f, a, vars, funcs) {
            Err(err) => Err(err),
            Ok(x) => match eval_fueled(f, b, vars, funcs) {
                Err(err) => Err(err),
                Ok(y) => Ok(mul_exec(x, y)),
            },
        },
        Expr::Div(a, b) => match eval_fueled(f, a, vars, funcs) {
            Err(err) => Err(err),
            Ok(x) => match eval_fueled(f, b, vars, funcs) {
                Err(err) => Err(err),
                Ok(y) => Ok(div_exec(x, y)),
            },
        },
        Expr::Var(name) => match lookup_var_exec(vars, name) {
            Some(v) => Ok(v),
            None => Err(EvalError::UnboundVariable(name.clone())),
        },
        Expr::Let { name, rhs, then } => match eval_fueled(f, rhs, vars, funcs) {
            Err(err) => Err(err),
            Ok(v) => {
                let ghost vars0 = vars@;
                vars.push((name.clone(), v));
                let r = eval_fueled(f, then, vars, funcs);
                vars.pop();
                proof {
                    assert(vars@ =~= vars0);
                }
                r
            },
        },
        Expr::Call(name, args) => match lookup_fn_exec(funcs, name) {
            None => Err(EvalError::UndefinedFunction(name.clone())),
            Some((params, body)) => {
                if params.len() != args.len() {
                    Err(EvalError::ArityMismatch(name.clone(), params.len(), args.len()))
                } else {
                    match eval_args_exec(f, args, 0, vars, funcs) {
                        Err(err) => Err(err),
                        Ok(vals) => {
                            proof {
                                lemma_eval_args_spec_len(
                                    f as nat,
                                    args@,
                                    0,
                                    vars@,
                                    fn_env_model(funcs@),
                                );
                            }
                            let ghost vars0 = vars@;
                            let ghost frame = call_frame(params@, vals@);
                            let n = params.len();
                            let mut k: usize = 0;
                            while k < n
                                invariant
                                    k <= n,
                                    n == params@.len(),
                                    n == vals@.len(),
                                    vars@ == vars0 + frame.take(k as int),
                                    frame == call_frame(params@, vals@),
                                decreases n - k,
                            {
                                vars.push((params[k].clone(), vals[k]));
                                proof {
                                    assert(vars@ =~= vars0 + frame.take(k as int + 1));
                                }
                                k = k + 1;
                            }
                            proof {
                                assert(frame.take(n as int) =~= frame);
                            }
                            let r = eval_fueled(f, &body, vars, funcs);
                            let keep = vars.len() - n;
                            vars.truncate(keep);
                            proof {
                                assert(vars@ =~= vars0);
                            }
                            r
                        },
                    }
                }
            },
        },
        Expr::FnDecl { name, params, body, then } => {
            let params_c = params.clone();
            proof {
                assert(params_c@ =~= params@);
            }
            let ghost funcs0 = funcs@;
            funcs.push((name.clone(), params_c, rc_dup(body)));
            proof {
                assert(fn_env_model(funcs@) =~= fn_env_model(funcs0).push(
                    (*name, params@, **body),
                ));
            }
            let r = eval_fueled(f, then, vars, funcs);
            funcs.pop();
            proof {
                assert(funcs@ =~= funcs0);
            }
            r
        },
        Expr::Reserved => Err(EvalError::NotImplemented),
    }
}

/// Evaluates `expr` under the two environments. The depth budget is the
/// largest one expressible, so a `DepthLimit` failure stands only for a
/// nesting no machine could evaluate; every practical input gets the result
/// `eval_spec` states, and both environments are handed back as they were.
pub fn eval(expr: &Expr, vars: &mut VarEnv, funcs: &mut FnEnv) -> (r: Result<u64, EvalError>)
    ensures
        final(vars)@ == old(vars)@,
        final(funcs)@ == old(funcs)@,
        r == eval_spec(u64::MAX as nat, *expr, old(vars)@, fn_env_model(old(funcs)@)),
{
    eval_fueled(u64::MAX, expr, vars, funcs)
}

} // verus!
