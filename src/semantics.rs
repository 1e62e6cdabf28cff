//! Evaluation of expressions, with the work and the span of each evaluation.
use crate::arc_list::ArcList;
use crate::laws::lemma_span_le_work;
use crate::syntax::{BinaryOp, Bind, Ctor, Expr, Pattern, UnaryOp, Value as SynValue, Var};
use std::rc::Rc;
use std::sync::Arc;
use vstd::prelude::*;

verus! {

broadcast use crate::arc_list::group_arc_list_lemmas;

/// A result together with the cost of computing it.
#[derive(Debug)]
pub struct Res<T> {
    pub result: T,
    /// The number of evaluation steps.
    pub work: u64,
    /// The length of the longest chain of steps that depend on each other.
    pub span: u64,
}

/// Why an evaluation failed.
#[derive(Debug)]
pub enum EvalError {
    /// The condition of an `if` is not a boolean.
    InvalidIteCond { cond: Arc<Value> },
    /// A unary operator got an argument of the wrong shape.
    InvalidUnaryOpArgs { op: UnaryOp, inner: Arc<Value> },
    /// A binary operator got arguments of the wrong shape, or an arithmetic result that does
    /// not fit in an `i64`, or a division by zero.
    InvalidBinaryOpArgs { op: BinaryOp, lhs: Arc<Value>, rhs: Arc<Value> },
    /// The function position of an application is not a lambda.
    InvalidAppArgs { inner: Arc<Value> },
    /// No arm of a `case` matches; carries the subject and every arm's pattern.
    CaseNoMatch { inner: Arc<Value>, patterns: Vec<Rc<Pattern>> },
    /// No frame binds the variable.
    EnvNotFound { var: Var },
    /// A pattern does not match; carries the innermost sub-pattern and sub-value that differ.
    PatternNotMatched { pattern: Pattern, value: Arc<Value> },
    /// Applications nested more than `u64::MAX` deep.
    DepthExhausted,
}

/// An `EvalError` with its list of patterns seen as a sequence.
pub enum EvalErrorView {
    InvalidIteCond { cond: Arc<Value> },
    InvalidUnaryOpArgs { op: UnaryOp, inner: Arc<Value> },
    InvalidBinaryOpArgs { op: BinaryOp, lhs: Arc<Value>, rhs: Arc<Value> },
    InvalidAppArgs { inner: Arc<Value> },
    CaseNoMatch { inner: Arc<Value>, patterns: Seq<Rc<Pattern>> },
    EnvNotFound { var: Var },
    PatternNotMatched { pattern: Pattern, value: Arc<Value> },
    DepthExhausted,
}

impl View for EvalError {
    type V = EvalErrorView;

    open spec fn view(&self) -> EvalErrorView {
        match *self {
            EvalError::InvalidIteCond { cond } => EvalErrorView::InvalidIteCond { cond },
            EvalError::InvalidUnaryOpArgs { op, inner } => EvalErrorView::InvalidUnaryOpArgs {
                op,
                inner,
            },
            EvalError::InvalidBinaryOpArgs { op, lhs, rhs } => EvalErrorView::InvalidBinaryOpArgs {
                op,
                lhs,
                rhs,
            },
            EvalError::InvalidAppArgs { inner } => EvalErrorView::InvalidAppArgs { inner },
            EvalError::CaseNoMatch { inner, patterns } => EvalErrorView::CaseNoMatch {
                inner,
                patterns: patterns@,
            },
            EvalError::EnvNotFound { var } => EvalErrorView::EnvNotFound { var },
            EvalError::PatternNotMatched { pattern, value } => EvalErrorView::PatternNotMatched {
                pattern,
                value,
            },
            EvalError::DepthExhausted => EvalErrorView::DepthExhausted,
        }
    }
}

/// A result whose error, if any, is seen through its view.
pub open spec fn view_result<T>(r: Result<T, EvalError>) -> Result<T, EvalErrorView> {
    match r {
        Ok(v) => Ok(v),
        Err(e) => Err(e@),
    }
}

/// The outcome of an evaluation.
pub type EResult<T> = Result<Res<T>, EvalError>;

/// A runtime value.
#[derive(Debug)]
pub enum Value {
    Integer(i64),
    Boolean(bool),
    Pair { lhs: Arc<Value>, rhs: Arc<Value> },
    Ctor { ctor: Ctor, inner: Arc<Value> },
    /// A lambda with the environment it was created in.
    Lambda { pattern: Rc<Pattern>, expr: Rc<Expr>, env: Env },
}

impl Value {
    /// The integer, if this is one.
    pub fn coerce_integer(&self) -> (r: Option<i64>)
        ensures
            r == (match *self {
                Value::Integer(i) => Some(i),
                _ => None,
            }),
    {
        match self {
            Value::Integer(i) => Some(*i),
            _ => None,
        }
    }

    /// The boolean, if this is one.
    pub fn coerce_bool(&self) -> (r: Option<bool>)
        ensures
            r == (match *self {
                Value::Boolean(b) => Some(b),
                _ => None,
            }),
    {
        match self {
            Value::Boolean(b) => Some(*b),
            _ => None,
        }
    }
}

/// One frame of an environment: its bindings, the most recent first. A variable bound twice
/// in a frame has its most recent value.
pub type EnvPiece = ArcList<(Var, Arc<Value>)>;

/// An environment: its frames, the innermost scope first.
pub type Env = ArcList<EnvPiece>;

/// The value that a frame binds `var` to.
pub open spec fn piece_get(piece: Seq<(Var, Arc<Value>)>, var: Seq<char>) -> Option<Arc<Value>>
    decreases piece.len(),
{
    if piece.len() == 0 {
        None
    } else if piece[0].0@ == var {
        Some(piece[0].1)
    } else {
        piece_get(piece.drop_first(), var)
    }
}

/// The value of `var` in the innermost frame that binds it.
pub open spec fn env_lookup(frames: Seq<EnvPiece>, var: Seq<char>) -> Option<Arc<Value>>
    decreases frames.len(),
{
    if frames.len() == 0 {
        None
    } else {
        match piece_get(frames[0]@, var) {
            Some(v) => Some(v),
            None => env_lookup(frames.drop_first(), var),
        }
    }
}

/// The runtime value of a literal in `env`: a lambda captures `env`.
pub open spec fn literal_value(lit: SynValue, env: Env) -> Value
    decreases lit,
{
    match lit {
        SynValue::Integer(i) => Value::Integer(i),
        SynValue::Boolean(b) => Value::Boolean(b),
        SynValue::Pair { lhs, rhs } => Value::Pair {
            lhs: Arc::new(literal_value(*lhs, env)),
            rhs: Arc::new(literal_value(*rhs, env)),
        },
        SynValue::Ctor { ctor, inner } => Value::Ctor {
            ctor,
            inner: Arc::new(literal_value(*inner, env)),
        },
        SynValue::Lambda { pattern, expr } => Value::Lambda { pattern, expr, env },
    }
}

/// Matches `pattern` against `value`, pushing the bindings onto `piece` from left to right.
pub open spec fn match_into(pattern: Pattern, value: Arc<Value>, piece: EnvPiece) -> Result<
    EnvPiece,
    EvalErrorView,
>
    decreases pattern,
{
    let mismatch = EvalErrorView::PatternNotMatched { pattern, value };
    match pattern {
        Pattern::Var(var) => Ok(piece.pushed((var, value))),
        Pattern::Pair { lhs, rhs } => match *value {
            Value::Pair { lhs: lhs_value, rhs: rhs_value } => match match_into(
                *lhs,
                lhs_value,
                piece,
            ) {
                Ok(next) => match_into(*rhs, rhs_value, next),
                Err(e) => Err(e),
            },
            _ => Err(mismatch),
        },
        Pattern::Ctor { ctor, inner } => match *value {
            Value::Ctor { ctor: ctor_value, inner: inner_value } => {
                if ctor_value@ == ctor@ {
                    match_into(*inner, inner_value, piece)
                } else {
                    Err(mismatch)
                }
            },
            _ => Err(mismatch),
        },
    }
}

/// The frame of bindings that matching `pattern` against `value` produces.
pub open spec fn match_pattern(pattern: Pattern, value: Arc<Value>) -> Result<
    EnvPiece,
    EvalErrorView,
> {
    match_into(pattern, value, EnvPiece::empty())
}

/// An integer as a value, if it fits in an `i64`.
pub open spec fn fitting_integer(n: int) -> Option<Value> {
    if i64::MIN <= n <= i64::MAX {
        Some(Value::Integer(n as i64))
    } else {
        None
    }
}

/// What a unary operator makes of its argument.
pub open spec fn unary_result(op: UnaryOp, value: Arc<Value>) -> Result<Value, EvalErrorView> {
    let r = match (op, *value) {
        (UnaryOp::Not, Value::Boolean(b)) => Some(Value::Boolean(!b)),
        (UnaryOp::Neg, Value::Integer(i)) => fitting_integer(-i),
        _ => None,
    };
    match r {
        Some(v) => Ok(v),
        None => Err(EvalErrorView::InvalidUnaryOpArgs { op, inner: value }),
    }
}

/// What a binary operator makes of two integers. Division truncates toward zero.
pub open spec fn integer_op(op: BinaryOp, a: i64, b: i64) -> Option<Value> {
    match op {
        BinaryOp::Plus => fitting_integer(a + b),
        BinaryOp::Minus => fitting_integer(a - b),
        BinaryOp::Times => fitting_integer(a * b),
        BinaryOp::Over => match a.checked_div(b) {
            Some(q) => Some(Value::Integer(q)),
            None => None,
        },
        BinaryOp::Equal => Some(Value::Boolean(a == b)),
        BinaryOp::Less => Some(Value::Boolean(a < b)),
        BinaryOp::Le => Some(Value::Boolean(a <= b)),
        _ => None,
    }
}

/// What a binary operator makes of two booleans.
pub open spec fn boolean_op(op: BinaryOp, a: bool, b: bool) -> Option<Value> {
    match op {
        BinaryOp::Or => Some(Value::Boolean(a || b)),
        BinaryOp::And => Some(Value::Boolean(a && b)),
        BinaryOp::Xor => Some(Value::Boolean(a != b)),
        _ => None,
    }
}

/// What a binary operator makes of its arguments.
pub open spec fn binary_result(op: BinaryOp, lhs: Arc<Value>, rhs: Arc<Value>) -> Result<
    Value,
    EvalErrorView,
> {
    let r = match (*lhs, *rhs) {
        (Value::Integer(a), Value::Integer(b)) => integer_op(op, a, b),
        (Value::Boolean(a), Value::Boolean(b)) => boolean_op(op, a, b),
        _ => None,
    };
    match r {
        Some(v) => Ok(v),
        None => Err(EvalErrorView::InvalidBinaryOpArgs { op, lhs, rhs }),
    }
}

/// `n` as a cost: counts saturate at `u64::MAX`.
pub open spec fn sat(n: int) -> u64 {
    if n >= u64::MAX {
        u64::MAX
    } else {
        n as u64
    }
}

/// The larger of two spans.
pub open spec fn larger(a: u64, b: u64) -> u64 {
    if a >= b {
        a
    } else {
        b
    }
}

/// Evaluation of `expr` in `env` where at most `fuel` applications may be nested.
///
/// Each node costs one step of work and of span on top of its parts: the work of the parts
/// adds up; their spans add up where one part waits for the other and are maximised where
/// they are independent (the two sides of a binary operator or of a parallel pair, the
/// function and the argument of an application). The first error met is the result.
pub open spec fn eval_spec(env: Env, expr: Expr, fuel: nat) -> Result<
    Res<Arc<Value>>,
    EvalErrorView,
>
    decreases fuel, expr, 0nat,
{
    match expr {
        Expr::Var(var) => match env_lookup(env@, var@) {
            Some(v) => Ok(Res { result: v, work: 1, span: 1 }),
            None => Err(EvalErrorView::EnvNotFound { var }),
        },
        Expr::Value(lit) => Ok(Res { result: Arc::new(literal_value(*lit, env)), work: 1, span: 1 }),
        Expr::UnaryOp { op, inner } => match eval_spec(env, *inner, fuel) {
            Err(e) => Err(e),
            Ok(a) => match unary_result(op, a.result) {
                Err(e) => Err(e),
                Ok(v) => Ok(
                    Res { result: Arc::new(v), work: sat(a.work + 1), span: sat(a.span + 1) },
                ),
            },
        },
        Expr::BinaryOp { op, lhs, rhs } => match eval_spec(env, *lhs, fuel) {
            Err(e) => Err(e),
            Ok(a) => match eval_spec(env, *rhs, fuel) {
                Err(e) => Err(e),
                Ok(b) => match binary_result(op, a.result, b.result) {
                    Err(e) => Err(e),
                    Ok(v) => Ok(
                        Res {
                            result: Arc::new(v),
                            work: sat(a.work + b.work + 1),
                            span: sat(larger(a.span, b.span) + 1),
                        },
                    ),
                },
            },
        },
        Expr::SeqPair { lhs, rhs } => match eval_spec(env, *lhs, fuel) {
            Err(e) => Err(e),
            Ok(a) => match eval_spec(env, *rhs, fuel) {
                Err(e) => Err(e),
                Ok(b) => Ok(
                    Res {
                        result: Arc::new(Value::Pair { lhs: a.result, rhs: b.result }),
                        work: sat(a.work + b.work + 1),
                        span: sat(a.span + b.span + 1),
                    },
                ),
            },
        },
        Expr::ParPair { lhs, rhs } => match eval_spec(env, *lhs, fuel) {
            Err(e) => Err(e),
            Ok(a) => match eval_spec(env, *rhs, fuel) {
                Err(e) => Err(e),
                Ok(b) => Ok(
                    Res {
                        result: Arc::new(Value::Pair { lhs: a.result, rhs: b.result }),
                        work: sat(a.work + b.work + 1),
                        span: sat(larger(a.span, b.span) + 1),
                    },
                ),
            },
        },
        Expr::Case { inner, arms } => match eval_spec(env, *inner, fuel) {
            Err(e) => Err(e),
            Ok(s) => match case_spec(env, arms@, 0, s.result, fuel) {
                Err(e) => Err(e),
                Ok(b) => Ok(
                    Res {
                        result: b.result,
                        work: sat(s.work + b.work + 1),
                        span: sat(s.span + b.span + 1),
                    },
                ),
            },
        },
        Expr::Ite { cond, lhs, rhs } => match eval_spec(env, *cond, fuel) {
            Err(e) => Err(e),
            Ok(c) => match *c.result {
                Value::Boolean(b) => {
                    let branch = if b {
                        eval_spec(env, *lhs, fuel)
                    } else {
                        eval_spec(env, *rhs, fuel)
                    };
                    match branch {
                        Err(e) => Err(e),
                        Ok(t) => Ok(
                            Res {
                                result: t.result,
                                work: sat(c.work + t.work + 1),
                                span: sat(c.span + t.span + 1),
                            },
                        ),
                    }
                },
                _ => Err(EvalErrorView::InvalidIteCond { cond: c.result }),
            },
        },
        Expr::App { lhs, rhs } => match eval_spec(env, *lhs, fuel) {
            Err(e) => Err(e),
            Ok(f) => match *f.result {
                Value::Lambda { pattern, expr: body, env: captured } => match eval_spec(
                    env,
                    *rhs,
                    fuel,
                ) {
                    Err(e) => Err(e),
                    Ok(a) => match match_pattern(*pattern, a.result) {
                        Err(e) => Err(e),
                        Ok(piece) => {
                            if fuel == 0 {
                                Err(EvalErrorView::DepthExhausted)
                            } else {
                                match eval_spec(captured.pushed(piece), *body, (fuel - 1) as nat) {
                                    Err(e) => Err(e),
                                    Ok(b) => Ok(
                                        Res {
                                            result: b.result,
                                            work: sat(f.work + a.work + b.work + 1),
                                            span: sat(larger(f.span, a.span) + b.span + 1),
                                        },
                                    ),
                                }
                            }
                        },
                    },
                },
                _ => Err(EvalErrorView::InvalidAppArgs { inner: f.result }),
            },
        },
        Expr::Let { binds, expr: body } => match let_spec(env, binds@, binds@.len(), fuel) {
            Err(e) => Err(e),
            Ok(acc) => match eval_spec(env.pushed(acc.result), *body, fuel) {
                Err(e) => Err(e),
                Ok(b) => Ok(
                    Res {
                        result: b.result,
                        work: sat(acc.work + b.work + 1),
                        span: sat(acc.span + b.span + 1),
                    },
                ),
            },
        },
    }
}

/// The arms of a `case` from the `i`-th on, tried in order against `subject`: the first
/// whose pattern matches has its body evaluated in `env` extended by the bindings of that
/// match alone.
pub open spec fn case_spec(
    env: Env,
    arms: Seq<(Rc<Pattern>, Box<Expr>)>,
    i: nat,
    subject: Arc<Value>,
    fuel: nat,
) -> Result<Res<Arc<Value>>, EvalErrorView>
    decreases fuel, arms, arms.len() - i,
{
    if i >= arms.len() {
        Err(EvalErrorView::CaseNoMatch { inner: subject, patterns: arms.map_values(|arm: (Rc<Pattern>, Box<Expr>)| arm.0) })
    } else {
        match match_pattern(*arms[i as int].0, subject) {
            Ok(piece) => eval_spec(env.pushed(piece), *arms[i as int].1, fuel),
            Err(_) => case_spec(env, arms, i + 1, subject, fuel),
        }
    }
}

/// The first `n` bindings of a `let`, each evaluated in `env`: the frame they make, with
/// the sums of their work and of their spans.
pub open spec fn let_spec(env: Env, binds: Seq<Bind>, n: nat, fuel: nat) -> Result<
    Res<EnvPiece>,
    EvalErrorView,
>
    decreases fuel, binds, n,
{
    if n == 0 || n > binds.len() {
        Ok(Res { result: EnvPiece::empty(), work: 0, span: 0 })
    } else {
        match let_spec(env, binds, (n - 1) as nat, fuel) {
            Err(e) => Err(e),
            Ok(acc) => match eval_spec(env, *binds[n - 1].expr, fuel) {
                Err(e) => Err(e),
                Ok(r) => Ok(
                    Res {
                        result: acc.result.pushed((binds[n - 1].var, r.result)),
                        work: sat(acc.work + r.work),
                        span: sat(acc.span + r.span),
                    },
                ),
            },
        }
    }
}

/// Once one binding of a `let` fails, the bindings after it change nothing.
proof fn lemma_let_error_persists(env: Env, binds: Seq<Bind>, k: nat, n: nat, fuel: nat)
    requires
        0 < k <= n <= binds.len(),
        let_spec(env, binds, k, fuel) is Err,
    ensures
        let_spec(env, binds, n, fuel) == let_spec(env, binds, k, fuel),
    decreases n - k,
{
    if n > k {
        lemma_let_error_persists(env, binds, k, (n - 1) as nat, fuel);
    }
}

impl Env {
    /// Looks `var` up in one frame.
    fn piece_lookup(piece: &EnvPiece, var: &Var) -> (r: Option<Arc<Value>>)
        ensures
            r == piece_get(piece@, var@),
    {
        let mut it = piece.iter();
        loop
            invariant
                piece_get(it@, var@) == piece_get(piece@, var@),
            decreases it@.len(),
        {
            match it.next() {
                None => {
                    return None;
                },
                Some(binding) => {
                    if binding.0 == *var {
                        return Some(binding.1.clone());
                    }
                },
            }
        }
    }

    /// The value of `var` in the innermost frame that binds it.
    pub fn eval_var(&self, var: &Var) -> (r: Result<Arc<Value>, EvalError>)
        ensures
            view_result(r) == match env_lookup(self@, var@) {
                Some(v) => Ok(v),
                None => Err(EvalErrorView::EnvNotFound { var: *var }),
            },
    {
        let mut it = self.iter();
        loop
            invariant
                env_lookup(it@, var@) == env_lookup(self@, var@),
            decreases it@.len(),
        {
            match it.next() {
                None => {
                    return Err(EvalError::EnvNotFound { var: var.clone() });
                },
                Some(piece) => {
                    if let Some(v) = Self::piece_lookup(piece, var) {
                        return Ok(v);
                    }
                },
            }
        }
    }

    /// The runtime value of a literal here.
    fn eval_value(&self, value: &SynValue) -> (r: Arc<Value>)
        ensures
            r == Arc::new(literal_value(*value, *self)),
        decreases value,
    {
        match value {
            SynValue::Integer(i) => Arc::new(Value::Integer(*i)),
            SynValue::Boolean(b) => Arc::new(Value::Boolean(*b)),
            SynValue::Pair { lhs, rhs } => {
                let lhs = self.eval_value(lhs);
                let rhs = self.eval_value(rhs);
                Arc::new(Value::Pair { lhs, rhs })
            },
            SynValue::Ctor { ctor, inner } => {
                let inner = self.eval_value(inner);
                Arc::new(Value::Ctor { ctor: ctor.clone(), inner })
            },
            SynValue::Lambda { pattern, expr } => Arc::new(
                Value::Lambda { pattern: pattern.clone(), expr: expr.clone(), env: self.clone() },
            ),
        }
    }

    /// Matches `pattern` against `value`, pushing the bindings onto `env_piece`.
    fn eval_pattern_inner(&self, pattern: &Pattern, value: &Arc<Value>, env_piece: &mut EnvPiece) -> (r:
        Result<(), EvalError>)
        ensures
            match match_into(*pattern, *value, *old(env_piece)) {
                Ok(piece) => r is Ok && *final(env_piece) == piece,
                Err(e) => view_result(r) == Err::<(), EvalErrorView>(e),
            },
        decreases pattern,
    {
        match (pattern, &**value) {
            (Pattern::Var(var), _) => {
                *env_piece = env_piece.clone().insert((var.clone(), value.clone()));
                Ok(())
            },
            (
                Pattern::Pair { lhs: lhs_pattern, rhs: rhs_pattern },
                Value::Pair { lhs: lhs_value, rhs: rhs_value },
            ) => {
                self.eval_pattern_inner(lhs_pattern, lhs_value, env_piece)?;
                self.eval_pattern_inner(rhs_pattern, rhs_value, env_piece)?;
                Ok(())
            },
            (
                Pattern::Ctor { ctor: ctor_pattern, inner: inner_pattern },
                Value::Ctor { ctor: ctor_value, inner: inner_value },
            ) if *ctor_pattern == *ctor_value => {
                self.eval_pattern_inner(inner_pattern, inner_value, env_piece)
            },
            _ => Err(EvalError::PatternNotMatched { pattern: pattern.clone(), value: value.clone() }),
        }
    }

    /// The frame of bindings that matching `pattern` against `value` produces; a failed match
    /// hands back no bindings at all.
    pub fn eval_pattern(&self, pattern: &Pattern, value: &Arc<Value>) -> (r: Result<
        EnvPiece,
        EvalError,
    >)
        ensures
            view_result(r) == match_pattern(*pattern, *value),
    {
        let mut env_piece = EnvPiece::new();
        self.eval_pattern_inner(pattern, value, &mut env_piece)?;
        Ok(env_piece)
    }

    /// Applies a unary operator.
    pub fn eval_unary_op(op: UnaryOp, inner: &Arc<Value>) -> (r: Result<Value, EvalError>)
        ensures
            view_result(r) == unary_result(op, *inner),
    {
        let r = match (op, &**inner) {
            (UnaryOp::Not, Value::Boolean(b)) => Some(Value::Boolean(!*b)),
            (UnaryOp::Neg, Value::Integer(i)) => match 0i64.checked_sub(*i) {
                Some(n) => Some(Value::Integer(n)),
                None => None,
            },
            _ => None,
        };
        match r {
            Some(v) => Ok(v),
            None => Err(EvalError::InvalidUnaryOpArgs { op, inner: inner.clone() }),
        }
    }

    /// Applies a binary operator.
    pub fn eval_binary_op(op: BinaryOp, lhs: &Arc<Value>, rhs: &Arc<Value>) -> (r: Result<
        Value,
        EvalError,
    >)
        ensures
            view_result(r) == binary_result(op, *lhs, *rhs),
    {
        let r = match (&**lhs, &**rhs) {
            (Value::Integer(a), Value::Integer(b)) => {
                let (a, b) = (*a, *b);
                match op {
                    BinaryOp::Plus => match a.checked_add(b) {
                        Some(n) => Some(Value::Integer(n)),
                        None => None,
                    },
                    BinaryOp::Minus => match a.checked_sub(b) {
                        Some(n) => Some(Value::Integer(n)),
                        None => None,
                    },
                    BinaryOp::Times => match a.checked_mul(b) {
                        Some(n) => Some(Value::Integer(n)),
                        None => None,
                    },
                    BinaryOp::Over => match a.checked_div(b) {
                        Some(n) => Some(Value::Integer(n)),
                        None => None,
                    },
                    BinaryOp::Equal => Some(Value::Boolean(a == b)),
                    BinaryOp::Less => Some(Value::Boolean(a < b)),
                    BinaryOp::Le => Some(Value::Boolean(a <= b)),
                    _ => None,
                }
            },
            (Value::Boolean(a), Value::Boolean(b)) => {
                let (a, b) = (*a, *b);
                match op {
                    BinaryOp::Or => Some(Value::Boolean(a || b)),
                    BinaryOp::And => Some(Value::Boolean(a && b)),
                    BinaryOp::Xor => Some(Value::Boolean(a != b)),
                    _ => None,
                }
            },
            _ => None,
        };
        match r {
            Some(v) => Ok(v),
            None => Err(EvalError::InvalidBinaryOpArgs { op, lhs: lhs.clone(), rhs: rhs.clone() }),
        }
    }
    /// Evaluates `expr` where at most `fuel` applications may be nested.
    fn eval_bounded(&self, expr: &Expr, fuel: u64) -> (r: EResult<Arc<Value>>)
        ensures
            view_result(r) == eval_spec(*self, *expr, fuel as nat),
        decreases fuel, expr,
    {
        match expr {
            Expr::Var(var) => Ok(Res { result: self.eval_var(var)?, work: 1, span: 1 }),
            Expr::Value(value) => Ok(Res { result: self.eval_value(value), work: 1, span: 1 }),
            Expr::UnaryOp { op, inner } => {
                let inner = self.eval_bounded(inner, fuel)?;
                let res = Self::eval_unary_op(*op, &inner.result)?;
                Ok(
                    Res {
                        result: Arc::new(res),
                        work: inner.work.saturating_add(1),
                        span: inner.span.saturating_add(1),
                    },
                )
            },
            Expr::BinaryOp { op, lhs, rhs } => {
                let lhs = self.eval_bounded(lhs, fuel)?;
                let rhs = self.eval_bounded(rhs, fuel)?;
                let res = Self::eval_binary_op(*op, &lhs.result, &rhs.result)?;
                Ok(
                    Res {
                        result: Arc::new(res),
                        work: lhs.work.saturating_add(rhs.work).saturating_add(1),
                        span: max_span(lhs.span, rhs.span).saturating_add(1),
                    },
                )
            },
            Expr::SeqPair { lhs, rhs } => {
                let lhs = self.eval_bounded(lhs, fuel)?;
                let rhs = self.eval_bounded(rhs, fuel)?;
                Ok(
                    Res {
                        result: Arc::new(Value::Pair { lhs: lhs.result, rhs: rhs.result }),
                        work: lhs.work.saturating_add(rhs.work).saturating_add(1),
                        span: lhs.span.saturating_add(rhs.span).saturating_add(1),
                    },
                )
            },
            Expr::ParPair { lhs, rhs } => {
                let lhs = self.eval_bounded(lhs, fuel)?;
                let rhs = self.eval_bounded(rhs, fuel)?;
                Ok(
                    Res {
                        result: Arc::new(Value::Pair { lhs: lhs.result, rhs: rhs.result }),
                        work: lhs.work.saturating_add(rhs.work).saturating_add(1),
                        span: max_span(lhs.span, rhs.span).saturating_add(1),
                    },
                )
            },
            Expr::Case { inner, arms } => {
                let inner = self.eval_bounded(inner, fuel)?;
                let body = self.eval_arms(arms, &inner.result, fuel)?;
                Ok(
                    Res {
                        result: body.result,
                        work: inner.work.saturating_add(body.work).saturating_add(1),
                        span: inner.span.saturating_add(body.span).saturating_add(1),
                    },
                )
            },
            Expr::Ite { cond, lhs, rhs } => {
                let cond = self.eval_bounded(cond, fuel)?;
                let cond_result = match cond.result.coerce_bool() {
                    Some(b) => b,
                    None => {
                        return Err(EvalError::InvalidIteCond { cond: cond.result });
                    },
                };
                let body = if cond_result {
                    self.eval_bounded(lhs, fuel)?
                } else {
                    self.eval_bounded(rhs, fuel)?
                };
                Ok(
                    Res {
                        result: body.result,
                        work: cond.work.saturating_add(body.work).saturating_add(1),
                        span: cond.span.saturating_add(body.span).saturating_add(1),
                    },
                )
            },
            Expr::App { lhs, rhs } => {
                let lhs = self.eval_bounded(lhs, fuel)?;
                match &*lhs.result {
                    Value::Lambda { pattern, expr: body, env: captured } => {
                        let rhs = self.eval_bounded(rhs, fuel)?;
                        let env_piece = self.eval_pattern(pattern, &rhs.result)?;
                        if fuel == 0 {
                            return Err(EvalError::DepthExhausted);
                        }
                        let env = captured.clone().insert(env_piece);
                        let app = env.eval_bounded(body, fuel - 1)?;
                        Ok(
                            Res {
                                result: app.result,
                                work: lhs.work.saturating_add(rhs.work).saturating_add(
                                    app.work,
                                ).saturating_add(1),
                                span: max_span(lhs.span, rhs.span).saturating_add(
                                    app.span,
                                ).saturating_add(1),
                            },
                        )
                    },
                    _ => Err(EvalError::InvalidAppArgs { inner: lhs.result.clone() }),
                }
            },
            Expr::Let { binds, expr: body } => {
                let binds = self.eval_binds(binds, fuel)?;
                let env = self.clone().insert(binds.result);
                let res = env.eval_bounded(body, fuel)?;
                Ok(
                    Res {
                        result: res.result,
                        work: binds.work.saturating_add(res.work).saturating_add(1),
                        span: binds.span.saturating_add(res.span).saturating_add(1),
                    },
                )
            },
        }
    }

    /// Tries the arms of a `case` in order against `subject` and evaluates the body of the
    /// first that matches.
    fn eval_arms(&self, arms: &Vec<(Rc<Pattern>, Box<Expr>)>, subject: &Arc<Value>, fuel: u64) -> (r:
        EResult<Arc<Value>>)
        ensures
            view_result(r) == case_spec(*self, arms@, 0, *subject, fuel as nat),
        decreases fuel, arms,
    {
        let mut i: usize = 0;
        while i < arms.len()
            invariant
                0 <= i <= arms.len(),
                case_spec(*self, arms@, 0, *subject, fuel as nat) == case_spec(
                    *self,
                    arms@,
                    i as nat,
                    *subject,
                    fuel as nat,
                ),
            decreases arms.len() - i,
        {
            let (pattern, body) = &arms[i];
            if let Ok(env_piece) = self.eval_pattern(pattern, subject) {
                let env = self.clone().insert(env_piece);
                proof {
                    assert(decreases_to!(arms => arms[i as int]));
                }
                return env.eval_bounded(body, fuel);
            }
            i += 1;
        }
        let mut patterns: Vec<Rc<Pattern>> = Vec::new();
        let mut j: usize = 0;
        while j < arms.len()
            invariant
                0 <= j <= arms.len(),
                patterns@ == arms@.subrange(0, j as int).map_values(
                    |arm: (Rc<Pattern>, Box<Expr>)| arm.0,
                ),
            decreases arms.len() - j,
        {
            patterns.push(arms[j].0.clone());
            j += 1;
            proof {
                assert(patterns@ =~= arms@.subrange(0, j as int).map_values(
                    |arm: (Rc<Pattern>, Box<Expr>)| arm.0,
                ));
            }
        }
        proof {
            assert(arms@.subrange(0, arms.len() as int) =~= arms@);
        }
        Err(EvalError::CaseNoMatch { inner: subject.clone(), patterns })
    }

    /// Evaluates the bindings of a `let`, each in this environment, into one frame.
    fn eval_binds(&self, binds: &Vec<Bind>, fuel: u64) -> (r: Result<Res<EnvPiece>, EvalError>)
        ensures
            view_result(r) == let_spec(*self, binds@, binds@.len(), fuel as nat),
        decreases fuel, binds,
    {
        let mut env_piece = EnvPiece::new();
        let mut work: u64 = 0;
        let mut span: u64 = 0;
        let mut i: usize = 0;
        while i < binds.len()
            invariant
                0 <= i <= binds.len(),
                let_spec(*self, binds@, i as nat, fuel as nat) == Ok::<Res<EnvPiece>, EvalErrorView>(
                    Res { result: env_piece, work, span },
                ),
            decreases binds.len() - i,
        {
            let bind = &binds[i];
            proof {
                assert(decreases_to!(binds => binds[i as int]));
            }
            let res = match self.eval_bounded(&bind.expr, fuel) {
                Ok(res) => res,
                Err(e) => {
                    proof {
                        lemma_let_error_persists(*self, binds@, (i + 1) as nat, binds@.len(), fuel as nat);
                    }
                    return Err(e);
                },
            };
            env_piece = env_piece.insert((bind.var.clone(), res.result));
            work = work.saturating_add(res.work);
            span = span.saturating_add(res.span);
            i += 1;
        }
        Ok(Res { result: env_piece, work, span })
    }

    /// Evaluates `expr` in this environment: its value with its work and span, or the first
    /// error met.
    pub fn eval_expr(&self, expr: &Expr) -> (r: EResult<Arc<Value>>)
        ensures
            view_result(r) == eval_spec(*self, *expr, u64::MAX as nat),
            r matches Ok(res) ==> res.span <= res.work,
    {
        proof {
            lemma_span_le_work(*self, *expr, u64::MAX as nat);
        }
        self.eval_bounded(expr, u64::MAX)
    }
}

/// The larger of two spans.
fn max_span(a: u64, b: u64) -> (r: u64)
    ensures
        r == larger(a, b),
{
    if a >= b {
        a
    } else {
        b
    }
}

} // verus!
