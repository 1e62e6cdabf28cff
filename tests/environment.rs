use sparc::arc_list::ArcList;
use sparc::semantics::{Env, EnvPiece, EvalError, Value};
use sparc::syntax::{Pattern, Value as Lit};
use std::rc::Rc;
use std::sync::Arc;

fn frame(bindings: Vec<(&str, i64)>) -> EnvPiece {
    let mut piece = EnvPiece::new();
    for (name, value) in bindings {
        piece = piece.insert((name.to_string(), Arc::new(Value::Integer(value))));
    }
    piece
}

fn lookup(env: &Env, name: &str) -> Option<i64> {
    match env.eval_var(&name.to_string()) {
        Ok(v) => Some(v.coerce_integer().unwrap()),
        Err(EvalError::EnvNotFound { var }) => {
            assert_eq!(var, name);
            None
        }
        Err(e) => panic!("unexpected {:?}", e),
    }
}

#[test]
fn later_frame_shadows_earlier() {
    let env = Env::new().insert(frame(vec![("x", 1)])).insert(frame(vec![("x", 2)]));
    assert_eq!(lookup(&env, "x"), Some(2));
}

#[test]
fn extension_leaves_base_unchanged() {
    let base = Env::new().insert(frame(vec![("x", 1), ("y", 2)]));
    let extended = base.clone().insert(frame(vec![("x", 10), ("z", 3)]));
    assert_eq!(lookup(&base, "x"), Some(1));
    assert_eq!(lookup(&base, "y"), Some(2));
    assert_eq!(lookup(&base, "z"), None);
    assert_eq!(lookup(&extended, "x"), Some(10));
    assert_eq!(lookup(&extended, "y"), Some(2));
    assert_eq!(lookup(&extended, "z"), Some(3));
}

#[test]
fn sibling_extensions_are_independent() {
    let base = Env::new().insert(frame(vec![("x", 1)]));
    let left = base.clone().insert(frame(vec![("x", 2)]));
    let right = base.clone().insert(frame(vec![("x", 3)]));
    assert_eq!(lookup(&left, "x"), Some(2));
    assert_eq!(lookup(&right, "x"), Some(3));
    assert_eq!(lookup(&base, "x"), Some(1));
}

#[test]
fn empty_environment_binds_nothing() {
    assert_eq!(lookup(&Env::new(), "x"), None);
}

#[test]
fn latest_binding_in_a_frame_wins() {
    let env = Env::new().insert(frame(vec![("x", 1), ("x", 4)]));
    assert_eq!(lookup(&env, "x"), Some(4));
}

#[test]
fn list_iterates_newest_first() {
    let list = ArcList::new().insert(1u64).insert(2).insert(3);
    let mut it = list.iter();
    assert_eq!(it.next(), Some(&3));
    assert_eq!(it.next(), Some(&2));
    assert_eq!(it.next(), Some(&1));
    assert_eq!(it.next(), None);
    assert_eq!(it.next(), None);
}

#[test]
fn list_clone_shares_items() {
    let list = ArcList::new().insert(7u64);
    let copy = list.clone().insert(8);
    assert_eq!(list.iter().next(), Some(&7));
    let mut it = copy.iter();
    assert_eq!(it.next(), Some(&8));
    assert_eq!(it.next(), Some(&7));
    assert_eq!(it.next(), None);
}

fn bindings(piece: &EnvPiece) -> Vec<(String, String)> {
    let mut out = Vec::new();
    let mut it = piece.iter();
    while let Some((name, value)) = it.next() {
        out.push((name.clone(), format!("{:?}", value)));
    }
    out
}

#[test]
fn variable_pattern_always_matches() {
    let env = Env::new();
    let values = vec![
        Arc::new(Value::Integer(3)),
        Arc::new(Value::Boolean(false)),
        Arc::new(Value::Pair { lhs: Arc::new(Value::Integer(1)), rhs: Arc::new(Value::Integer(2)) }),
    ];
    for value in values {
        let piece = env.eval_pattern(&Pattern::Var("v".to_string()), &value).unwrap();
        assert_eq!(bindings(&piece), vec![("v".to_string(), format!("{:?}", value))]);
    }
}

#[test]
fn failed_match_returns_no_bindings() {
    let env = Env::new();
    let value = Arc::new(Value::Pair {
        lhs: Arc::new(Value::Integer(1)),
        rhs: Arc::new(Value::Ctor { ctor: "B".to_string(), inner: Arc::new(Value::Integer(2)) }),
    });
    let pattern = Pattern::Pair {
        lhs: Box::new(Pattern::Var("a".to_string())),
        rhs: Box::new(Pattern::Ctor { ctor: "A".to_string(), inner: Box::new(Pattern::Var("b".to_string())) }),
    };
    match env.eval_pattern(&pattern, &value) {
        Err(EvalError::PatternNotMatched { pattern: Pattern::Ctor { ctor, .. }, value }) => {
            assert_eq!(ctor, "A");
            assert!(matches!(&*value, Value::Ctor { ctor, .. } if ctor == "B"));
        }
        other => panic!("unexpected {:?}", other),
    }
}

#[test]
fn nested_pattern_binds_left_to_right() {
    let env = Env::new();
    let value = Arc::new(Value::Pair {
        lhs: Arc::new(Value::Integer(1)),
        rhs: Arc::new(Value::Ctor { ctor: "A".to_string(), inner: Arc::new(Value::Integer(2)) }),
    });
    let pattern = Pattern::Pair {
        lhs: Box::new(Pattern::Var("a".to_string())),
        rhs: Box::new(Pattern::Ctor { ctor: "A".to_string(), inner: Box::new(Pattern::Var("b".to_string())) }),
    };
    let piece = env.eval_pattern(&pattern, &value).unwrap();
    let found = bindings(&piece);
    assert_eq!(found.len(), 2);
    assert_eq!(found[0].0, "b");
    assert_eq!(found[1].0, "a");
    let scoped = env.insert(piece);
    assert_eq!(lookup(&scoped, "a"), Some(1));
    assert_eq!(lookup(&scoped, "b"), Some(2));
}

#[test]
fn literal_lambda_captures_environment() {
    let env = Env::new().insert(frame(vec![("k", 9)]));
    let lit = Lit::Lambda {
        pattern: Rc::new(Pattern::Var("x".to_string())),
        expr: Rc::new(sparc::syntax::Expr::Var("k".to_string())),
    };
    let r = env.eval_expr(&sparc::syntax::Expr::Value(Box::new(lit))).unwrap();
    match &*r.result {
        Value::Lambda { env: captured, .. } => assert_eq!(lookup(captured, "k"), Some(9)),
        other => panic!("unexpected {:?}", other),
    }
}

#[test]
fn coercions() {
    assert_eq!(Value::Integer(4).coerce_integer(), Some(4));
    assert_eq!(Value::Integer(4).coerce_bool(), None);
    assert_eq!(Value::Boolean(true).coerce_bool(), Some(true));
    assert_eq!(Value::Boolean(true).coerce_integer(), None);
    assert_eq!(Lit::Integer(4).coerce_integer(), Some(4));
    assert_eq!(Lit::Boolean(false).coerce_bool(), Some(false));
    assert_eq!(Lit::Boolean(false).coerce_integer(), None);
    assert_eq!(Lit::Integer(4).coerce_bool(), None);
}
