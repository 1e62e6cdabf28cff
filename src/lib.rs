//! An evaluator for a small expression language that reports, with each result, the work and
//! the span of the evaluation under the work/span cost model of parallel algorithms.
//!
//! Integer arithmetic is checked: a sum, difference, product, quotient or negation that does
//! not fit in an `i64`, and a division by zero, are rejected as invalid arguments of the
//! operator. Work and span counts saturate at `u64::MAX`.
pub mod arc_list;
pub mod executor;
pub mod laws;
pub mod semantics;
pub mod syntax;

pub use arc_list::{ArcList, ArcListIter};
pub use executor::Executor;
pub use semantics::{EResult, Env, EnvPiece, EvalError, Res, Value};
pub use syntax::{BinaryOp, Bind, Expr, Pattern, UnaryOp};
