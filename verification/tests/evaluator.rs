use std::rc::Rc;
use treeval::ast::Expr;
use treeval::eval::{eval, eval_fueled, EvalError, FnEnv, VarEnv};

fn lit(x: f64) -> Expr {
    Expr::Literal(x.to_bits())
}

fn var(n: &str) -> Expr {
    Expr::Var(n.to_string())
}

fn bx(e: Expr) -> Box<Expr> {
    Box::new(e)
}

fn let_in(name: &str, rhs: Expr, then: Expr) -> Expr {
    Expr::Let { name: name.to_string(), rhs: bx(rhs), then: bx(then) }
}

fn decl(name: &str, params: &[&str], body: Expr, then: Expr) -> Expr {
    Expr::FnDecl {
        name: name.to_string(),
        params: params.iter().map(|p| p.to_string()).collect(),
        body: Rc::new(body),
        then: bx(then),
    }
}

fn call(name: &str, args: Vec<Expr>) -> Expr {
    Expr::Call(name.to_string(), args)
}

fn run(e: &Expr) -> Result<u64, EvalError> {
    let mut vars: VarEnv = Vec::new();
    let mut funcs: FnEnv = Vec::new();
    eval(e, &mut vars, &mut funcs)
}

fn run_num(e: &Expr) -> f64 {
    f64::from_bits(run(e).expect("evaluation should succeed"))
}

#[test]
fn literal_evaluates_to_itself() {
    assert_eq!(run(&lit(42.5)), Ok(42.5f64.to_bits()));
    assert_eq!(run(&lit(0.0)), Ok(0.0f64.to_bits()));
    assert_eq!(run(&lit(-3.25)), Ok((-3.25f64).to_bits()));
}

#[test]
fn negation_negates() {
    assert_eq!(run_num(&Expr::Neg(bx(lit(2.5)))), -2.5);
    assert_eq!(run_num(&Expr::Neg(bx(lit(-7.0)))), 7.0);
}

#[test]
fn addition_adds() {
    assert_eq!(run_num(&Expr::Add(bx(lit(2.0)), bx(lit(3.0)))), 5.0);
    assert_eq!(run_num(&Expr::Add(bx(lit(0.1)), bx(lit(0.2)))), 0.1f64 + 0.2f64);
}

#[test]
fn subtraction_subtracts() {
    assert_eq!(run_num(&Expr::Sub(bx(lit(7.5)), bx(lit(2.25)))), 5.25);
}

#[test]
fn multiplication_multiplies() {
    assert_eq!(run_num(&Expr::Mul(bx(lit(3.0)), bx(lit(4.5)))), 13.5);
}

#[test]
fn division_divides() {
    assert_eq!(run_num(&Expr::Div(bx(lit(1.0)), bx(lit(4.0)))), 0.25);
}

#[test]
fn compound_arithmetic() {
    // ((1 + 2) * 3 - 4) / 2 == 2.5
    let e = Expr::Div(
        bx(Expr::Sub(
            bx(Expr::Mul(bx(Expr::Add(bx(lit(1.0)), bx(lit(2.0)))), bx(lit(3.0)))),
            bx(lit(4.0)),
        )),
        bx(lit(2.0)),
    );
    assert_eq!(run_num(&e), 2.5);
}

#[test]
fn division_by_zero_gives_infinity() {
    let e = Expr::Div(bx(lit(1.0)), bx(lit(0.0)));
    let bits = run(&e).expect("division by zero is not an error");
    assert_eq!(bits, f64::INFINITY.to_bits());
    let e = Expr::Div(bx(lit(-1.0)), bx(lit(0.0)));
    let bits = run(&e).expect("division by zero is not an error");
    assert_eq!(bits, f64::NEG_INFINITY.to_bits());
    let e = Expr::Div(bx(lit(0.0)), bx(lit(0.0)));
    let bits = run(&e).expect("division by zero is not an error");
    assert!(f64::from_bits(bits).is_nan());
}

#[test]
fn let_binding_visible_in_continuation() {
    assert_eq!(run_num(&let_in("x", lit(2.0), var("x"))), 2.0);
}

#[test]
fn let_rhs_sees_only_outer_bindings() {
    // let x = 1 in let x = x + 1 in x: the inner right-hand side sees the
    // outer x, not itself.
    let e = let_in(
        "x",
        lit(1.0),
        let_in("x", Expr::Add(bx(var("x")), bx(lit(1.0))), var("x")),
    );
    assert_eq!(run_num(&e), 2.0);
}

#[test]
fn unbound_variable_fails() {
    assert_eq!(run(&var("y")), Err(EvalError::UnboundVariable("y".to_string())));
}

#[test]
fn shadowing_newest_binding_wins() {
    let e = let_in("x", lit(1.0), let_in("x", lit(2.0), var("x")));
    assert_eq!(run_num(&e), 2.0);
}

#[test]
fn binding_does_not_leak_to_sibling() {
    // The left operand binds x; the right operand is outside both lets, so
    // its reference to x must fail.
    let e = Expr::Add(
        bx(let_in("x", lit(1.0), let_in("x", lit(2.0), var("x")))),
        bx(var("x")),
    );
    assert_eq!(run(&e), Err(EvalError::UnboundVariable("x".to_string())));
}

#[test]
fn variable_lookup_uses_newest_entry() {
    let mut vars: VarEnv = vec![
        ("x".to_string(), 1.0f64.to_bits()),
        ("x".to_string(), 2.0f64.to_bits()),
    ];
    let mut funcs: FnEnv = Vec::new();
    let r = eval(&var("x"), &mut vars, &mut funcs);
    assert_eq!(r, Ok(2.0f64.to_bits()));
}

#[test]
fn environments_are_handed_back_unchanged() {
    let mut vars: VarEnv = vec![("x".to_string(), 1.0f64.to_bits())];
    let mut funcs: FnEnv = Vec::new();
    let e = decl(
        "f",
        &["a"],
        Expr::Add(bx(var("a")), bx(var("x"))),
        let_in("y", lit(3.0), call("f", vec![var("y")])),
    );
    let r = eval(&e, &mut vars, &mut funcs);
    assert_eq!(r, Ok(4.0f64.to_bits()));
    assert_eq!(vars, vec![("x".to_string(), 1.0f64.to_bits())]);
    assert_eq!(funcs.len(), 0);
}

#[test]
fn function_call_with_correct_arity() {
    let e = decl(
        "f",
        &["a", "b"],
        Expr::Add(bx(var("a")), bx(var("b"))),
        call("f", vec![lit(3.0), lit(4.0)]),
    );
    assert_eq!(run_num(&e), 7.0);
}

#[test]
fn function_call_with_wrong_arity() {
    let e = decl(
        "f",
        &["a", "b"],
        Expr::Add(bx(var("a")), bx(var("b"))),
        call("f", vec![lit(3.0)]),
    );
    assert_eq!(run(&e), Err(EvalError::ArityMismatch("f".to_string(), 2, 1)));
}

#[test]
fn undeclared_function_fails() {
    assert_eq!(
        run(&call("g", vec![])),
        Err(EvalError::UndefinedFunction("g".to_string()))
    );
}

#[test]
fn function_shadowing_newest_declaration_wins() {
    let e = decl(
        "f",
        &["a"],
        var("a"),
        decl("f", &["a"], Expr::Neg(bx(var("a"))), call("f", vec![lit(5.0)])),
    );
    assert_eq!(run_num(&e), -5.0);
}

#[test]
fn declaration_does_not_leak_to_sibling() {
    // The left operand declares f; the right operand is outside the
    // declaration's continuation, so its call to f must fail.
    let e = Expr::Add(
        bx(decl("f", &[], lit(1.0), call("f", vec![]))),
        bx(call("f", vec![])),
    );
    assert_eq!(run(&e), Err(EvalError::UndefinedFunction("f".to_string())));
}

#[test]
fn second_argument_error_is_reported() {
    let e = decl(
        "f",
        &["a", "b"],
        Expr::Add(bx(var("a")), bx(var("b"))),
        call("f", vec![lit(1.0), var("nope")]),
    );
    assert_eq!(run(&e), Err(EvalError::UnboundVariable("nope".to_string())));
}

#[test]
fn argument_errors_are_reported_left_to_right() {
    let e = decl(
        "f",
        &["a", "b"],
        Expr::Add(bx(var("a")), bx(var("b"))),
        call("f", vec![var("first"), var("second")]),
    );
    assert_eq!(run(&e), Err(EvalError::UnboundVariable("first".to_string())));
}

#[test]
fn arguments_are_evaluated_in_caller_environment() {
    let e = decl(
        "id",
        &["a"],
        var("a"),
        let_in("x", lit(5.0), call("id", vec![var("x")])),
    );
    assert_eq!(run_num(&e), 5.0);
}

#[test]
fn body_sees_caller_bindings_beneath_frame() {
    // The frame is pushed onto the caller's variable environment, so names
    // the frame does not shadow resolve to the caller's bindings.
    let e = decl(
        "f",
        &["a"],
        Expr::Add(bx(var("a")), bx(var("x"))),
        let_in("x", lit(10.0), call("f", vec![lit(1.0)])),
    );
    assert_eq!(run_num(&e), 11.0);
}

#[test]
fn reserved_form_is_not_implemented() {
    assert_eq!(run(&Expr::Reserved), Err(EvalError::NotImplemented));
}

#[test]
fn zero_fuel_is_a_depth_limit() {
    let mut vars: VarEnv = Vec::new();
    let mut funcs: FnEnv = Vec::new();
    let r = eval_fueled(0, &lit(1.0), &mut vars, &mut funcs);
    assert_eq!(r, Err(EvalError::DepthLimit));
}

#[test]
fn runaway_recursion_hits_the_depth_limit() {
    // f() calls itself; the language has no conditional, so the recursion
    // cannot stop and the fuel budget must end it.
    let e = decl("f", &[], call("f", vec![]), call("f", vec![]));
    let mut vars: VarEnv = Vec::new();
    let mut funcs: FnEnv = Vec::new();
    let r = eval_fueled(500, &e, &mut vars, &mut funcs);
    assert_eq!(r, Err(EvalError::DepthLimit));
    assert_eq!(vars.len(), 0);
    assert_eq!(funcs.len(), 0);
}

#[test]
fn deep_nesting_within_fuel_succeeds() {
    let mut e = lit(0.0);
    for _ in 0..200 {
        e = Expr::Add(bx(e), bx(lit(1.0)));
    }
    assert_eq!(run_num(&e), 200.0);
}
