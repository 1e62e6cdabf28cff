//! Runs whole programs in a fresh top-level environment.
use crate::semantics::{eval_spec, view_result, EResult, Env, Value};
use crate::syntax::Expr;
use std::sync::Arc;
use vstd::prelude::*;

verus! {

/// Evaluates programs, each in the empty top-level environment.
#[derive(Debug)]
pub struct Executor {
    env: Env,
}

impl Executor {
    /// The environment that programs are evaluated in.
    pub closed spec fn environment(&self) -> Env {
        self.env
    }

    /// An executor whose top-level environment is empty.
    pub fn new() -> (r: Self)
        ensures
            r.environment() == Env::empty(),
            r.environment()@ == Seq::<crate::semantics::EnvPiece>::empty(),
    {
        Self { env: Env::new() }
    }

    /// Evaluates a program: its value with the work and span of computing it, or the first
    /// error met.
    pub fn exec(&self, expr: &Expr) -> (r: EResult<Arc<Value>>)
        ensures
            view_result(r) == eval_spec(self.environment(), *expr, u64::MAX as nat),
    {
        self.env.eval_expr(expr)
    }
}

} // verus!
