use sparc::semantics::{EResult, Env, EvalError, Value};
use sparc::syntax::{BinaryOp, Bind, Expr, Pattern, UnaryOp, Value as Lit};
use sparc::Executor;
use std::rc::Rc;
use std::sync::Arc;

fn integer(i: i64) -> Expr {
    Expr::Value(Box::new(Lit::Integer(i)))
}

fn boolean(b: bool) -> Expr {
    Expr::Value(Box::new(Lit::Boolean(b)))
}

fn var(name: &str) -> Expr {
    Expr::Var(name.to_string())
}

fn pvar(name: &str) -> Pattern {
    Pattern::Var(name.to_string())
}

fn binop(op: BinaryOp, lhs: Expr, rhs: Expr) -> Expr {
    Expr::BinaryOp { op, lhs: Box::new(lhs), rhs: Box::new(rhs) }
}

fn lambda(pattern: Pattern, body: Expr) -> Expr {
    Expr::Value(Box::new(Lit::Lambda { pattern: Rc::new(pattern), expr: Rc::new(body) }))
}

fn app(f: Expr, a: Expr) -> Expr {
    Expr::App { lhs: Box::new(f), rhs: Box::new(a) }
}

fn let_in(binds: Vec<(&str, Expr)>, body: Expr) -> Expr {
    Expr::Let {
        binds: binds
            .into_iter()
            .map(|(v, e)| Bind { var: v.to_string(), expr: Box::new(e) })
            .collect(),
        expr: Box::new(body),
    }
}

fn eval(expr: &Expr) -> EResult<Arc<Value>> {
    Env::new().eval_expr(expr)
}

fn expect_int(r: &EResult<Arc<Value>>, value: i64, work: u64, span: u64) {
    match r {
        Ok(res) => {
            assert_eq!(res.result.coerce_integer(), Some(value));
            assert_eq!(res.work, work);
            assert_eq!(res.span, span);
        }
        Err(e) => panic!("unexpected error {:?}", e),
    }
}

fn int_of(r: &EResult<Arc<Value>>) -> i64 {
    r.as_ref().unwrap().result.coerce_integer().unwrap()
}

#[test]
fn literal_costs_one() {
    expect_int(&eval(&integer(3)), 3, 1, 1);
}

#[test]
fn addition_of_literals() {
    expect_int(&eval(&binop(BinaryOp::Plus, integer(2), integer(3))), 5, 3, 2);
}

#[test]
fn let_binds_a_variable() {
    expect_int(&eval(&let_in(vec![("x", integer(1))], var("x"))), 1, 3, 3);
}

#[test]
fn application_of_a_lambda() {
    // f: 1/1, argument: 1/1, body x + x: 3/2; work 1 + 1 + 3 + 1, span max(1, 1) + 2 + 1.
    let e = app(lambda(pvar("x"), binop(BinaryOp::Plus, var("x"), var("x"))), integer(4));
    expect_int(&eval(&e), 8, 6, 4);
}

#[test]
fn case_falls_through_to_second_arm() {
    let subject = Expr::Value(Box::new(Lit::Ctor {
        ctor: "Left".to_string(),
        inner: Box::new(Lit::Integer(1)),
    }));
    let arms = vec![
        (
            Rc::new(Pattern::Ctor { ctor: "Right".to_string(), inner: Box::new(pvar("y")) }),
            Box::new(integer(0)),
        ),
        (
            Rc::new(Pattern::Ctor { ctor: "Left".to_string(), inner: Box::new(pvar("x")) }),
            Box::new(var("x")),
        ),
    ];
    let e = Expr::Case { inner: Box::new(subject), arms };
    expect_int(&eval(&e), 1, 3, 3);
}

#[test]
fn unbound_variable_is_reported() {
    match eval(&var("z")) {
        Err(EvalError::EnvNotFound { var }) => assert_eq!(var, "z"),
        other => panic!("unexpected {:?}", other),
    }
}

#[test]
fn evaluation_is_deterministic() {
    let e = let_in(
        vec![("x", integer(6)), ("y", integer(7))],
        Expr::ParPair {
            lhs: Box::new(binop(BinaryOp::Times, var("x"), var("y"))),
            rhs: Box::new(binop(BinaryOp::Minus, var("x"), var("y"))),
        },
    );
    let env = Env::new();
    let first = env.eval_expr(&e).unwrap();
    let second = env.eval_expr(&e).unwrap();
    assert_eq!(format!("{:?}", first.result), format!("{:?}", second.result));
    assert_eq!((first.work, first.span), (second.work, second.span));
    assert_eq!((first.work, first.span), (10, 6));
}

#[test]
fn work_is_at_least_span() {
    let exprs = vec![
        integer(1),
        binop(BinaryOp::Plus, integer(1), binop(BinaryOp::Times, integer(2), integer(3))),
        Expr::ParPair { lhs: Box::new(integer(1)), rhs: Box::new(binop(BinaryOp::Plus, integer(1), integer(2))) },
        Expr::SeqPair { lhs: Box::new(integer(1)), rhs: Box::new(integer(2)) },
        let_in(vec![("a", integer(1)), ("b", integer(2))], binop(BinaryOp::Plus, var("a"), var("b"))),
        app(lambda(pvar("x"), binop(BinaryOp::Less, var("x"), integer(9))), integer(4)),
    ];
    for e in exprs.iter() {
        let r = eval(e).unwrap();
        assert!(r.work >= r.span, "{:?}", e);
    }
}

#[test]
fn seq_and_par_pairs_differ_only_in_span() {
    let side = || binop(BinaryOp::Plus, integer(1), binop(BinaryOp::Plus, integer(2), integer(3)));
    let seq = eval(&Expr::SeqPair { lhs: Box::new(side()), rhs: Box::new(integer(4)) }).unwrap();
    let par = eval(&Expr::ParPair { lhs: Box::new(side()), rhs: Box::new(integer(4)) }).unwrap();
    assert_eq!(format!("{:?}", seq.result), format!("{:?}", par.result));
    assert_eq!(seq.work, 7);
    assert_eq!(par.work, 7);
    assert_eq!(seq.span, 5);
    assert_eq!(par.span, 4);
}

#[test]
fn failed_sub_match_leaks_no_binding() {
    // The first arm binds `a` before its tag test fails; the second arm must not see `a`.
    let subject = Expr::Value(Box::new(Lit::Pair {
        lhs: Box::new(Lit::Integer(1)),
        rhs: Box::new(Lit::Integer(2)),
    }));
    let first = Pattern::Pair {
        lhs: Box::new(pvar("a")),
        rhs: Box::new(Pattern::Ctor { ctor: "K".to_string(), inner: Box::new(pvar("b")) }),
    };
    let arms = vec![
        (Rc::new(first), Box::new(var("a"))),
        (Rc::new(pvar("c")), Box::new(var("a"))),
    ];
    match eval(&Expr::Case { inner: Box::new(subject), arms }) {
        Err(EvalError::EnvNotFound { var }) => assert_eq!(var, "a"),
        other => panic!("unexpected {:?}", other),
    }
}

#[test]
fn case_without_match_lists_every_pattern() {
    let arms = vec![
        (Rc::new(Pattern::Ctor { ctor: "A".to_string(), inner: Box::new(pvar("x")) }), Box::new(integer(0))),
        (
            Rc::new(Pattern::Pair { lhs: Box::new(pvar("p")), rhs: Box::new(pvar("q")) }),
            Box::new(integer(1)),
        ),
    ];
    match eval(&Expr::Case { inner: Box::new(integer(5)), arms }) {
        Err(EvalError::CaseNoMatch { inner, patterns }) => {
            assert_eq!(inner.coerce_integer(), Some(5));
            assert_eq!(patterns.len(), 2);
            assert!(matches!(&*patterns[0], Pattern::Ctor { ctor, .. } if ctor == "A"));
            assert!(matches!(&*patterns[1], Pattern::Pair { .. }));
        }
        other => panic!("unexpected {:?}", other),
    }
}

#[test]
fn if_needs_a_boolean() {
    let e = Expr::Ite { cond: Box::new(integer(1)), lhs: Box::new(integer(2)), rhs: Box::new(integer(3)) };
    match eval(&e) {
        Err(EvalError::InvalidIteCond { cond }) => assert_eq!(cond.coerce_integer(), Some(1)),
        other => panic!("unexpected {:?}", other),
    }
}

#[test]
fn if_takes_the_selected_branch() {
    let e = Expr::Ite {
        cond: Box::new(binop(BinaryOp::Le, integer(1), integer(1))),
        lhs: Box::new(integer(2)),
        rhs: Box::new(binop(BinaryOp::Plus, integer(3), integer(4))),
    };
    expect_int(&eval(&e), 2, 5, 4);
    let e = Expr::Ite {
        cond: Box::new(boolean(false)),
        lhs: Box::new(integer(2)),
        rhs: Box::new(binop(BinaryOp::Plus, integer(3), integer(4))),
    };
    expect_int(&eval(&e), 7, 5, 4);
}

#[test]
fn unary_operators() {
    expect_int(&eval(&Expr::UnaryOp { op: UnaryOp::Neg, inner: Box::new(integer(5)) }), -5, 2, 2);
    let r = eval(&Expr::UnaryOp { op: UnaryOp::Not, inner: Box::new(boolean(true)) }).unwrap();
    assert_eq!(r.result.coerce_bool(), Some(false));
}

#[test]
fn unary_operator_rejects_wrong_shape() {
    match eval(&Expr::UnaryOp { op: UnaryOp::Not, inner: Box::new(integer(5)) }) {
        Err(EvalError::InvalidUnaryOpArgs { op: UnaryOp::Not, inner }) => {
            assert_eq!(inner.coerce_integer(), Some(5))
        }
        other => panic!("unexpected {:?}", other),
    }
}

#[test]
fn negation_overflow_is_rejected() {
    let e = Expr::UnaryOp { op: UnaryOp::Neg, inner: Box::new(integer(i64::MIN)) };
    assert!(matches!(eval(&e), Err(EvalError::InvalidUnaryOpArgs { op: UnaryOp::Neg, .. })));
}

#[test]
fn binary_operators() {
    assert_eq!(int_of(&eval(&binop(BinaryOp::Minus, integer(2), integer(9)))), -7);
    assert_eq!(int_of(&eval(&binop(BinaryOp::Times, integer(-3), integer(9)))), -27);
    assert_eq!(int_of(&eval(&binop(BinaryOp::Over, integer(-7), integer(2)))), -3);
    assert_eq!(int_of(&eval(&binop(BinaryOp::Over, integer(7), integer(2)))), 3);
    let cases = vec![
        (binop(BinaryOp::Equal, integer(2), integer(2)), true),
        (binop(BinaryOp::Less, integer(2), integer(2)), false),
        (binop(BinaryOp::Le, integer(2), integer(2)), true),
        (binop(BinaryOp::Or, boolean(false), boolean(true)), true),
        (binop(BinaryOp::And, boolean(false), boolean(true)), false),
        (binop(BinaryOp::Xor, boolean(true), boolean(true)), false),
    ];
    for (e, expected) in cases {
        assert_eq!(eval(&e).unwrap().result.coerce_bool(), Some(expected));
    }
}

#[test]
fn binary_operator_rejects_wrong_shapes() {
    match eval(&binop(BinaryOp::Plus, integer(1), boolean(true))) {
        Err(EvalError::InvalidBinaryOpArgs { op: BinaryOp::Plus, lhs, rhs }) => {
            assert_eq!(lhs.coerce_integer(), Some(1));
            assert_eq!(rhs.coerce_bool(), Some(true));
        }
        other => panic!("unexpected {:?}", other),
    }
    assert!(matches!(
        eval(&binop(BinaryOp::And, integer(1), integer(0))),
        Err(EvalError::InvalidBinaryOpArgs { op: BinaryOp::And, .. })
    ));
    assert!(matches!(
        eval(&binop(BinaryOp::Less, boolean(true), boolean(false))),
        Err(EvalError::InvalidBinaryOpArgs { op: BinaryOp::Less, .. })
    ));
}

#[test]
fn division_by_zero_is_rejected() {
    assert!(matches!(
        eval(&binop(BinaryOp::Over, integer(1), integer(0))),
        Err(EvalError::InvalidBinaryOpArgs { op: BinaryOp::Over, .. })
    ));
}

#[test]
fn arithmetic_overflow_is_rejected() {
    assert!(matches!(
        eval(&binop(BinaryOp::Plus, integer(i64::MAX), integer(1))),
        Err(EvalError::InvalidBinaryOpArgs { op: BinaryOp::Plus, .. })
    ));
    assert!(matches!(
        eval(&binop(BinaryOp::Over, integer(i64::MIN), integer(-1))),
        Err(EvalError::InvalidBinaryOpArgs { op: BinaryOp::Over, .. })
    ));
    assert_eq!(int_of(&eval(&binop(BinaryOp::Plus, integer(i64::MAX - 1), integer(1)))), i64::MAX);
}

#[test]
fn applying_a_non_function_fails() {
    match eval(&app(integer(3), integer(4))) {
        Err(EvalError::InvalidAppArgs { inner }) => assert_eq!(inner.coerce_integer(), Some(3)),
        other => panic!("unexpected {:?}", other),
    }
}

#[test]
fn parameter_pattern_mismatch_fails() {
    let f = lambda(Pattern::Pair { lhs: Box::new(pvar("a")), rhs: Box::new(pvar("b")) }, var("a"));
    match eval(&app(f, integer(4))) {
        Err(EvalError::PatternNotMatched { pattern: Pattern::Pair { .. }, value }) => {
            assert_eq!(value.coerce_integer(), Some(4))
        }
        other => panic!("unexpected {:?}", other),
    }
}

#[test]
fn pair_parameter_destructures() {
    let f = lambda(
        Pattern::Pair { lhs: Box::new(pvar("a")), rhs: Box::new(pvar("b")) },
        binop(BinaryOp::Minus, var("a"), var("b")),
    );
    let arg = Expr::SeqPair { lhs: Box::new(integer(10)), rhs: Box::new(integer(4)) };
    // f 1/1, argument 3/3, body 3/2: work 1 + 3 + 3 + 1, span max(1, 3) + 2 + 1.
    expect_int(&eval(&app(f, arg)), 6, 8, 6);
}

#[test]
fn let_bindings_do_not_see_each_other() {
    let e = let_in(vec![("x", integer(1)), ("y", var("x"))], var("y"));
    match eval(&e) {
        Err(EvalError::EnvNotFound { var }) => assert_eq!(var, "x"),
        other => panic!("unexpected {:?}", other),
    }
}

#[test]
fn let_sums_binding_costs() {
    let e = let_in(
        vec![("x", binop(BinaryOp::Plus, integer(1), integer(2))), ("y", integer(4))],
        binop(BinaryOp::Times, var("x"), var("y")),
    );
    // bindings: 3/2 and 1/1; body 3/2; work 4 + 3 + 1, span 3 + 2 + 1.
    expect_int(&eval(&e), 12, 8, 6);
}

#[test]
fn closures_capture_their_environment() {
    // let x = 5 in (let f = fn y => x + y in let x = 100 in f 1)
    let inner = let_in(
        vec![("f", lambda(pvar("y"), binop(BinaryOp::Plus, var("x"), var("y"))))],
        let_in(vec![("x", integer(100))], app(var("f"), integer(1))),
    );
    let e = let_in(vec![("x", integer(5))], inner);
    assert_eq!(int_of(&eval(&e)), 6);
}

#[test]
fn lifted_unary_operator_applies() {
    let f = Expr::Value(Box::new(UnaryOp::Neg.lift()));
    expect_int(&eval(&app(f, integer(5))), -5, 5, 4);
}

#[test]
fn lifted_binary_operator_is_curried() {
    let f = Expr::Value(Box::new(BinaryOp::Minus.lift()));
    assert_eq!(int_of(&eval(&app(app(f, integer(9)), integer(4)))), 5);
}

#[test]
fn executor_evaluates_in_empty_environment() {
    let executor = Executor::new();
    expect_int(&executor.exec(&binop(BinaryOp::Plus, integer(2), integer(3))), 5, 3, 2);
    assert!(matches!(executor.exec(&var("x")), Err(EvalError::EnvNotFound { .. })));
}
