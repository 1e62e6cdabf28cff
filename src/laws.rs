//! Laws of evaluation, environments and pattern matching, proved over the specifications
//! that the evaluator's contracts use.
use crate::semantics::{
    case_spec, env_lookup, eval_spec, let_spec, match_pattern, piece_get, Env, EnvPiece,
    EvalErrorView, Value,
};
use crate::syntax::{Bind, Expr, Pattern, Var};
use std::rc::Rc;
use std::sync::Arc;
use vstd::prelude::*;

verus! {

broadcast use crate::arc_list::group_arc_list_lemmas;

/// Whether an outcome is the failure for applications nested too deep.
pub open spec fn exhausted<T>(r: Result<T, EvalErrorView>) -> bool {
    r matches Err(EvalErrorView::DepthExhausted)
}

/// The pattern of the `i`-th arm matched against `subject`.
pub open spec fn arm_match(arms: Seq<(Rc<Pattern>, Box<Expr>)>, i: int, subject: Arc<Value>) -> Result<
    EnvPiece,
    EvalErrorView,
> {
    match_pattern(*arms[i].0, subject)
}

/// Where and what an application of `function` to `argument` evaluates, when `function` is a
/// lambda whose pattern matches `argument`.
pub open spec fn applied_body(function: Arc<Value>, argument: Arc<Value>) -> Option<(Env, Expr)> {
    match *function {
        Value::Lambda { pattern, expr, env } => match match_pattern(*pattern, argument) {
            Ok(piece) => Some((env.pushed(piece), *expr)),
            Err(_) => None,
        },
        _ => None,
    }
}

/// Allowing deeper nesting of applications changes no outcome that was reached.
pub proof fn lemma_eval_fuel_monotone(env: Env, expr: Expr, f1: nat, f2: nat)
    requires
        f1 <= f2,
        !exhausted(eval_spec(env, expr, f1)),
    ensures
        eval_spec(env, expr, f2) == eval_spec(env, expr, f1),
    decreases f1, expr, 0nat,
{
    match expr {
        Expr::Var(_) => {},
        Expr::Value(_) => {},
        Expr::UnaryOp { op, inner } => {
            lemma_eval_fuel_monotone(env, *inner, f1, f2);
        },
        Expr::BinaryOp { op, lhs, rhs } => {
            lemma_eval_fuel_monotone(env, *lhs, f1, f2);
            if !exhausted(eval_spec(env, *rhs, f1)) {
                lemma_eval_fuel_monotone(env, *rhs, f1, f2);
            }
        },
        Expr::SeqPair { lhs, rhs } => {
            lemma_eval_fuel_monotone(env, *lhs, f1, f2);
            if !exhausted(eval_spec(env, *rhs, f1)) {
                lemma_eval_fuel_monotone(env, *rhs, f1, f2);
            }
        },
        Expr::ParPair { lhs, rhs } => {
            lemma_eval_fuel_monotone(env, *lhs, f1, f2);
            if !exhausted(eval_spec(env, *rhs, f1)) {
                lemma_eval_fuel_monotone(env, *rhs, f1, f2);
            }
        },
        Expr::Case { inner, arms } => {
            lemma_eval_fuel_monotone(env, *inner, f1, f2);
            if let Ok(s) = eval_spec(env, *inner, f1) {
                lemma_case_fuel_monotone(env, arms@, 0, s.result, f1, f2);
            }
        },
        Expr::Ite { cond, lhs, rhs } => {
            lemma_eval_fuel_monotone(env, *cond, f1, f2);
            if !exhausted(eval_spec(env, *lhs, f1)) {
                lemma_eval_fuel_monotone(env, *lhs, f1, f2);
            }
            if !exhausted(eval_spec(env, *rhs, f1)) {
                lemma_eval_fuel_monotone(env, *rhs, f1, f2);
            }
        },
        Expr::App { lhs, rhs } => {
            lemma_eval_fuel_monotone(env, *lhs, f1, f2);
            if !exhausted(eval_spec(env, *rhs, f1)) {
                lemma_eval_fuel_monotone(env, *rhs, f1, f2);
            }
            if let (Ok(f), Ok(a)) = (eval_spec(env, *lhs, f1), eval_spec(env, *rhs, f1)) {
                if let Some((body_env, body)) = applied_body(f.result, a.result) {
                    if f1 > 0 {
                        lemma_eval_fuel_monotone(body_env, body, (f1 - 1) as nat, (f2 - 1) as nat);
                    }
                }
            }
        },
        Expr::Let { binds, expr: body } => {
            lemma_let_fuel_monotone(env, binds@, binds@.len(), f1, f2);
            if let Ok(acc) = let_spec(env, binds@, binds@.len(), f1) {
                lemma_eval_fuel_monotone(env.pushed(acc.result), *body, f1, f2);
            }
        },
    }
}

/// `lemma_eval_fuel_monotone` for the arms of a `case`.
pub proof fn lemma_case_fuel_monotone(
    env: Env,
    arms: Seq<(Rc<Pattern>, Box<Expr>)>,
    i: nat,
    subject: Arc<Value>,
    f1: nat,
    f2: nat,
)
    requires
        f1 <= f2,
        !exhausted(case_spec(env, arms, i, subject, f1)),
    ensures
        case_spec(env, arms, i, subject, f2) == case_spec(env, arms, i, subject, f1),
    decreases f1, arms, arms.len() - i,
{
    if i < arms.len() {
        match arm_match(arms, i as int, subject) {
            Ok(piece) => {
                lemma_eval_fuel_monotone(env.pushed(piece), *arms[i as int].1, f1, f2);
            },
            Err(_) => {
                lemma_case_fuel_monotone(env, arms, i + 1, subject, f1, f2);
            },
        }
    }
}

/// `lemma_eval_fuel_monotone` for the bindings of a `let`.
pub proof fn lemma_let_fuel_monotone(env: Env, binds: Seq<Bind>, n: nat, f1: nat, f2: nat)
    requires
        f1 <= f2,
        !exhausted(let_spec(env, binds, n, f1)),
    ensures
        let_spec(env, binds, n, f2) == let_spec(env, binds, n, f1),
    decreases f1, binds, n,
{
    if 0 < n <= binds.len() {
        lemma_let_fuel_monotone(env, binds, (n - 1) as nat, f1, f2);
        if let_spec(env, binds, (n - 1) as nat, f1) is Ok {
            lemma_eval_fuel_monotone(env, *binds[n - 1].expr, f1, f2);
        }
    }
}

/// Evaluation is deterministic: two evaluations of one expression in one environment that
/// both end within their bounds on nesting end with the same value and cost, or the same
/// error.
pub proof fn lemma_evaluation_deterministic(env: Env, expr: Expr, f1: nat, f2: nat)
    requires
        !exhausted(eval_spec(env, expr, f1)),
        !exhausted(eval_spec(env, expr, f2)),
    ensures
        eval_spec(env, expr, f1) == eval_spec(env, expr, f2),
{
    if f1 <= f2 {
        lemma_eval_fuel_monotone(env, expr, f1, f2);
    } else {
        lemma_eval_fuel_monotone(env, expr, f2, f1);
    }
}

/// Work bounds span: every evaluation that succeeds has a span no larger than its work.
pub proof fn lemma_span_le_work(env: Env, expr: Expr, fuel: nat)
    ensures
        eval_spec(env, expr, fuel) matches Ok(r) ==> r.span <= r.work,
    decreases fuel, expr, 0nat,
{
    match expr {
        Expr::Var(_) => {},
        Expr::Value(_) => {},
        Expr::UnaryOp { op, inner } => {
            lemma_span_le_work(env, *inner, fuel);
        },
        Expr::BinaryOp { op, lhs, rhs } => {
            lemma_span_le_work(env, *lhs, fuel);
            lemma_span_le_work(env, *rhs, fuel);
        },
        Expr::SeqPair { lhs, rhs } => {
            lemma_span_le_work(env, *lhs, fuel);
            lemma_span_le_work(env, *rhs, fuel);
        },
        Expr::ParPair { lhs, rhs } => {
            lemma_span_le_work(env, *lhs, fuel);
            lemma_span_le_work(env, *rhs, fuel);
        },
        Expr::Case { inner, arms } => {
            lemma_span_le_work(env, *inner, fuel);
            if let Ok(s) = eval_spec(env, *inner, fuel) {
                lemma_case_span_le_work(env, arms@, 0, s.result, fuel);
            }
        },
        Expr::Ite { cond, lhs, rhs } => {
            lemma_span_le_work(env, *cond, fuel);
            lemma_span_le_work(env, *lhs, fuel);
            lemma_span_le_work(env, *rhs, fuel);
        },
        Expr::App { lhs, rhs } => {
            lemma_span_le_work(env, *lhs, fuel);
            lemma_span_le_work(env, *rhs, fuel);
            if let (Ok(f), Ok(a)) = (eval_spec(env, *lhs, fuel), eval_spec(env, *rhs, fuel)) {
                if let Some((body_env, body)) = applied_body(f.result, a.result) {
                    if fuel > 0 {
                        lemma_span_le_work(body_env, body, (fuel - 1) as nat);
                    }
                }
            }
        },
        Expr::Let { binds, expr: body } => {
            lemma_let_span_le_work(env, binds@, binds@.len(), fuel);
            if let Ok(acc) = let_spec(env, binds@, binds@.len(), fuel) {
                lemma_span_le_work(env.pushed(acc.result), *body, fuel);
            }
        },
    }
}

/// `lemma_span_le_work` for the arms of a `case`.
pub proof fn lemma_case_span_le_work(
    env: Env,
    arms: Seq<(Rc<Pattern>, Box<Expr>)>,
    i: nat,
    subject: Arc<Value>,
    fuel: nat,
)
    ensures
        case_spec(env, arms, i, subject, fuel) matches Ok(r) ==> r.span <= r.work,
    decreases fuel, arms, arms.len() - i,
{
    if i < arms.len() {
        match arm_match(arms, i as int, subject) {
            Ok(piece) => {
                lemma_span_le_work(env.pushed(piece), *arms[i as int].1, fuel);
            },
            Err(_) => {
                lemma_case_span_le_work(env, arms, i + 1, subject, fuel);
            },
        }
    }
}

/// `lemma_span_le_work` for the bindings of a `let`: the summed spans stay within the
/// summed work.
pub proof fn lemma_let_span_le_work(env: Env, binds: Seq<Bind>, n: nat, fuel: nat)
    ensures
        let_spec(env, binds, n, fuel) matches Ok(r) ==> r.span <= r.work,
    decreases fuel, binds, n,
{
    if 0 < n <= binds.len() {
        lemma_let_span_le_work(env, binds, (n - 1) as nat, fuel);
        lemma_span_le_work(env, *binds[n - 1].expr, fuel);
    }
}

/// A sequential pair and a parallel pair of the same two expressions agree on success, on
/// the value, on the error and on the work; the sequential one's span is at least the
/// parallel one's.
pub proof fn lemma_seq_par_pair(env: Env, lhs: Box<Expr>, rhs: Box<Expr>, fuel: nat)
    ensures
        match (
            eval_spec(env, Expr::SeqPair { lhs, rhs }, fuel),
            eval_spec(env, Expr::ParPair { lhs, rhs }, fuel),
        ) {
            (Ok(s), Ok(p)) => s.result == p.result && s.work == p.work && s.span >= p.span,
            (Err(s), Err(p)) => s == p,
            _ => false,
        },
{
}

/// Shadowing: of two frames that bind one variable, the one added later decides its value.
pub proof fn lemma_shadowing(env: Env, var: Var, first: Arc<Value>, second: Arc<Value>)
    ensures
        env_lookup(
            env.pushed(EnvPiece::empty().pushed((var, first))).pushed(
                EnvPiece::empty().pushed((var, second)),
            )@,
            var@,
        ) == Some(second),
{
    let inner = EnvPiece::empty().pushed((var, second));
    assert(piece_get(inner@, var@) == Some(second));
}

/// Extending an environment leaves it as it was: the new environment is one frame in front
/// of the old frames, and a variable that the frame does not bind is found as before.
pub proof fn lemma_extension_keeps_base(env: Env, frame: EnvPiece, var: Seq<char>)
    ensures
        env.pushed(frame)@.drop_first() == env@,
        piece_get(frame@, var) is None ==> env_lookup(env.pushed(frame)@, var) == env_lookup(
            env@,
            var,
        ),
{
    assert(env.pushed(frame)@.drop_first() =~= env@);
}

/// A variable pattern matches every value and binds exactly that variable, to that value.
pub proof fn lemma_var_pattern_total(var: Var, value: Arc<Value>)
    ensures
        match_pattern(Pattern::Var(var), value) == Ok::<EnvPiece, EvalErrorView>(
            EnvPiece::empty().pushed((var, value)),
        ),
        forall|name: Seq<char>|
            #[trigger] piece_get(EnvPiece::empty().pushed((var, value))@, name) == if name
                == var@ {
                Some(value)
            } else {
                None
            },
{
    let piece = EnvPiece::empty().pushed((var, value));
    assert forall|name: Seq<char>| #[trigger]
        piece_get(piece@, name) == if name == var@ {
            Some(value)
        } else {
            None
        } by {
        assert(piece@.drop_first() =~= Seq::<(Var, Arc<Value>)>::empty());
        assert(piece_get(piece@.drop_first(), name) is None);
    }
}

/// Arms whose patterns fail leave nothing behind: a `case` whose first matching arm is the
/// `k`-th evaluates that arm's body in its environment extended by the bindings of that
/// match alone.
pub proof fn lemma_case_first_match(
    env: Env,
    arms: Seq<(Rc<Pattern>, Box<Expr>)>,
    k: nat,
    subject: Arc<Value>,
    fuel: nat,
)
    requires
        k < arms.len(),
        forall|j: int| 0 <= j < k ==> #[trigger] arm_match(arms, j, subject) is Err,
        arm_match(arms, k as int, subject) is Ok,
    ensures
        case_spec(env, arms, 0, subject, fuel) == eval_spec(
            env.pushed(arm_match(arms, k as int, subject)->Ok_0),
            *arms[k as int].1,
            fuel,
        ),
{
    lemma_case_skips_failed(env, arms, 0, k, subject, fuel);
}

/// The arms before the first matching one are skipped.
proof fn lemma_case_skips_failed(
    env: Env,
    arms: Seq<(Rc<Pattern>, Box<Expr>)>,
    i: nat,
    k: nat,
    subject: Arc<Value>,
    fuel: nat,
)
    requires
        i <= k < arms.len(),
        forall|j: int| 0 <= j < k ==> #[trigger] arm_match(arms, j, subject) is Err,
    ensures
        case_spec(env, arms, i, subject, fuel) == case_spec(env, arms, k, subject, fuel),
    decreases k - i,
{
    if i < k {
        assert(arm_match(arms, i as int, subject) is Err);
        lemma_case_skips_failed(env, arms, i + 1, k, subject, fuel);
    }
}

} // verus!
