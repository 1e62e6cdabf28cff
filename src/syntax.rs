//! The abstract syntax: patterns, operators, literal values and expressions.
use std::rc::Rc;
use vstd::prelude::*;

verus! {

/// A variable name.
pub type Var = String;

/// A constructor tag.
pub type Ctor = String;

/// A pattern, in a `case` arm or in the parameter position of a lambda.
#[derive(Debug)]
pub enum Pattern {
    /// Matches any value and binds it.
    Var(Var),
    /// Matches a pair whose components match `lhs` and `rhs`.
    Pair { lhs: Box<Pattern>, rhs: Box<Pattern> },
    /// Matches a tagged value with tag `ctor` whose payload matches `inner`.
    Ctor { ctor: Ctor, inner: Box<Pattern> },
}

impl Clone for Pattern {
    fn clone(&self) -> (r: Self)
        ensures
            r == *self,
        decreases self,
    {
        match self {
            Pattern::Var(var) => Pattern::Var(var.clone()),
            Pattern::Pair { lhs, rhs } => Pattern::Pair {
                lhs: Box::new((**lhs).clone()),
                rhs: Box::new((**rhs).clone()),
            },
            Pattern::Ctor { ctor, inner } => Pattern::Ctor {
                ctor: ctor.clone(),
                inner: Box::new((**inner).clone()),
            },
        }
    }
}

/// A unary operator.
#[derive(Debug, Clone, Copy, PartialEq, Eq, Structural)]
pub enum UnaryOp {
    Not,
    Neg,
}

/// Whether `p` is the variable pattern named `name`.
pub open spec fn is_var_pattern(p: Pattern, name: Seq<char>) -> bool {
    match p {
        Pattern::Var(var) => var@ == name,
        _ => false,
    }
}

/// Whether `e` is a reference to the variable named `name`.
pub open spec fn is_var_expr(e: Expr, name: Seq<char>) -> bool {
    match e {
        Expr::Var(var) => var@ == name,
        _ => false,
    }
}

/// The name of the parameter of a lifted operator (of its first one, for a binary operator).
pub open spec fn first_param() -> Seq<char> {
    seq!['x']
}

/// The name of the second parameter of a lifted binary operator.
pub open spec fn second_param() -> Seq<char> {
    seq!['y']
}

impl UnaryOp {
    /// The operator as a function value: `fn x => op x`.
    pub fn lift(self) -> (r: Value)
        ensures
            match r {
                Value::Lambda { pattern, expr } => {
                    &&& is_var_pattern(*pattern, first_param())
                    &&& match *expr {
                        Expr::UnaryOp { op, inner } => op == self && is_var_expr(
                            *inner,
                            first_param(),
                        ),
                        _ => false,
                    }
                },
                _ => false,
            },
    {
        let param = "x".to_owned();
        proof {
            reveal_strlit("x");
            assert(param@ =~= first_param());
        }
        Value::Lambda {
            pattern: Rc::new(Pattern::Var(param.clone())),
            expr: Rc::new(Expr::UnaryOp { op: self, inner: Box::new(Expr::Var(param)) }),
        }
    }
}

/// A binary operator.
#[derive(Debug, Clone, Copy, PartialEq, Eq, Structural)]
pub enum BinaryOp {
    Or,
    And,
    Xor,
    Plus,
    Minus,
    Times,
    Over,
    Equal,
    Less,
    Le,
}

impl BinaryOp {
    /// The operator as a curried function value: `fn x => fn y => x op y`.
    pub fn lift(self) -> (r: Value)
        ensures
            match r {
                Value::Lambda { pattern, expr } => {
                    &&& is_var_pattern(*pattern, first_param())
                    &&& match *expr {
                        Expr::Value(inner) => match *inner {
                            Value::Lambda { pattern, expr } => {
                                &&& is_var_pattern(*pattern, second_param())
                                &&& match *expr {
                                    Expr::BinaryOp { op, lhs, rhs } => {
                                        &&& op == self
                                        &&& is_var_expr(*lhs, first_param())
                                        &&& is_var_expr(*rhs, second_param())
                                    },
                                    _ => false,
                                }
                            },
                            _ => false,
                        },
                        _ => false,
                    }
                },
                _ => false,
            },
    {
        let first = "x".to_owned();
        let second = "y".to_owned();
        proof {
            reveal_strlit("x");
            reveal_strlit("y");
            assert(first@ =~= first_param());
            assert(second@ =~= second_param());
        }
        let inner = Value::Lambda {
            pattern: Rc::new(Pattern::Var(second.clone())),
            expr: Rc::new(
                Expr::BinaryOp {
                    op: self,
                    lhs: Box::new(Expr::Var(first.clone())),
                    rhs: Box::new(Expr::Var(second)),
                },
            ),
        };
        Value::Lambda {
            pattern: Rc::new(Pattern::Var(first)),
            expr: Rc::new(Expr::Value(Box::new(inner))),
        }
    }
}

/// A literal value as it stands in the source. A lambda here has no environment yet: it
/// captures one when it is evaluated.
#[derive(Debug)]
pub enum Value {
    Integer(i64),
    Boolean(bool),
    Pair { lhs: Box<Value>, rhs: Box<Value> },
    Ctor { ctor: Ctor, inner: Box<Value> },
    Lambda { pattern: Rc<Pattern>, expr: Rc<Expr> },
}

impl Value {
    /// The integer, if this is one.
    pub fn coerce_integer(&self) -> (r: Option<i64>)
        ensures
            r == (match *self {
                Value::Integer(i) => Some(i),
                _ => None,
            }),
    {
        match self {
            Value::Integer(i) => Some(*i),
            _ => None,
        }
    }

    /// The boolean, if this is one.
    pub fn coerce_bool(&self) -> (r: Option<bool>)
        ensures
            r == (match *self {
                Value::Boolean(b) => Some(b),
                _ => None,
            }),
    {
        match self {
            Value::Boolean(b) => Some(*b),
            _ => None,
        }
    }
}

/// An expression.
#[derive(Debug)]
pub enum Expr {
    Var(Var),
    Value(Box<Value>),
    UnaryOp { op: UnaryOp, inner: Box<Expr> },
    BinaryOp { op: BinaryOp, lhs: Box<Expr>, rhs: Box<Expr> },
    /// Builds a pair; the two sides are costed one after the other.
    SeqPair { lhs: Box<Expr>, rhs: Box<Expr> },
    /// Builds a pair; the two sides are costed as running side by side.
    ParPair { lhs: Box<Expr>, rhs: Box<Expr> },
    /// Tries the arms in order; the first whose pattern matches is taken.
    Case { inner: Box<Expr>, arms: Vec<(Rc<Pattern>, Box<Expr>)> },
    Ite { cond: Box<Expr>, lhs: Box<Expr>, rhs: Box<Expr> },
    App { lhs: Box<Expr>, rhs: Box<Expr> },
    /// Binds every variable of `binds` at once, each evaluated in the enclosing scope.
    Let { binds: Vec<Bind>, expr: Box<Expr> },
}

/// One binding of a `let`.
#[derive(Debug)]
pub struct Bind {
    pub var: Var,
    pub expr: Box<Expr>,
}

} // verus!
