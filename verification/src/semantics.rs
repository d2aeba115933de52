//! An evaluation semantics for the expression language, and the soundness of
//! substitution with respect to it.
//!
//! Integers are read as unbounded mathematical integers; the bitwise and
//! shift operators are left outside the model, so an expression using them
//! has no value here.  Division and remainder by zero have no value either.

use vstd::prelude::*;
use crate::expression::{
    BinaryOperator, ExprView, UnaryOperator, VarView, spec_substitute,
};

verus! {

/// A value of the expression language: a boolean or a mathematical integer.
pub ghost enum Value {
    Bool(bool),
    Int(int),
}

/// The result of a binary operator on two values, where the model gives one.
pub open spec fn spec_apply_binary(op: BinaryOperator, l: Value, r: Value) -> Option<Value> {
    match (op, l, r) {
        (BinaryOperator::And, Value::Bool(a), Value::Bool(b)) => Some(Value::Bool(a && b)),
        (BinaryOperator::Or, Value::Bool(a), Value::Bool(b)) => Some(Value::Bool(a || b)),
        (BinaryOperator::Implication, Value::Bool(a), Value::Bool(b)) => Some(
            Value::Bool(!a || b),
        ),
        (BinaryOperator::Addition, Value::Int(a), Value::Int(b)) => Some(Value::Int(a + b)),
        (BinaryOperator::Subtraction, Value::Int(a), Value::Int(b)) => Some(Value::Int(a - b)),
        (BinaryOperator::Multiplication, Value::Int(a), Value::Int(b)) => Some(Value::Int(a * b)),
        (BinaryOperator::Division, Value::Int(a), Value::Int(b)) => if b != 0 {
            Some(Value::Int(a / b))
        } else {
            None
        },
        (BinaryOperator::Modulo, Value::Int(a), Value::Int(b)) => if b != 0 {
            Some(Value::Int(a % b))
        } else {
            None
        },
        (BinaryOperator::LessThan, Value::Int(a), Value::Int(b)) => Some(Value::Bool(a < b)),
        (BinaryOperator::LessThanOrEqual, Value::Int(a), Value::Int(b)) => Some(
            Value::Bool(a <= b),
        ),
        (BinaryOperator::GreaterThan, Value::Int(a), Value::Int(b)) => Some(Value::Bool(a > b)),
        (BinaryOperator::GreaterThanOrEqual, Value::Int(a), Value::Int(b)) => Some(
            Value::Bool(a >= b),
        ),
        (BinaryOperator::Equal, Value::Int(a), Value::Int(b)) => Some(Value::Bool(a == b)),
        (BinaryOperator::Equal, Value::Bool(a), Value::Bool(b)) => Some(Value::Bool(a == b)),
        (BinaryOperator::NotEqual, Value::Int(a), Value::Int(b)) => Some(Value::Bool(a != b)),
        (BinaryOperator::NotEqual, Value::Bool(a), Value::Bool(b)) => Some(Value::Bool(a != b)),
        _ => None,
    }
}

/// The result of a unary operator on a value, where the model gives one.
pub open spec fn spec_apply_unary(op: UnaryOperator, v: Value) -> Option<Value> {
    match (op, v) {
        (UnaryOperator::Not, Value::Bool(b)) => Some(Value::Bool(!b)),
        (UnaryOperator::Negation, Value::Int(i)) => Some(Value::Int(-i)),
        _ => None,
    }
}

/// Evaluates an expression under a total environment `env` assigning a value
/// to every variable.  `None` where the expression leaves the model.
pub open spec fn spec_eval(e: ExprView, env: spec_fn(VarView) -> Value) -> Option<Value>
    decreases e,
{
    match e {
        ExprView::Bool(b) => Some(Value::Bool(b)),
        ExprView::SignedBv { value, .. } => Some(Value::Int(value as int)),
        ExprView::UnsignedBv { value, .. } => Some(Value::Int(value as int)),
        ExprView::Var(v) => Some(env(v)),
        ExprView::Unary { op, e } => match spec_eval(*e, env) {
            Some(v) => spec_apply_unary(op, v),
            None => None,
        },
        ExprView::Binary { op, left, right } => match (
            spec_eval(*left, env),
            spec_eval(*right, env),
        ) {
            (Some(l), Some(r)) => spec_apply_binary(op, l, r),
            _ => None,
        },
    }
}

/// The environment `env` with the variable `x` rebound to `v`.
pub open spec fn spec_bind(
    env: spec_fn(VarView) -> Value,
    x: VarView,
    v: Value,
) -> spec_fn(VarView) -> Value {
    (|y: VarView| if y == x { v } else { env(y) })
}

/// Substitution soundness: for any predicate `q`, variable `x`, expression
/// `e` and environment under which `e` has the value `v`, evaluating
/// `q[x := e]` directly gives the same result as evaluating `q` under the
/// environment where `x` is bound to `v`.
pub proof fn lemma_substitution_sound(
    q: ExprView,
    x: VarView,
    e: ExprView,
    env: spec_fn(VarView) -> Value,
    v: Value,
)
    requires
        spec_eval(e, env) == Some(v),
    ensures
        spec_eval(spec_substitute(q, x, e), env) == spec_eval(q, spec_bind(env, x, v)),
    decreases q,
{
    let bound = spec_bind(env, x, v);
    match q {
        ExprView::Var(y) => {
            if y == x {
                assert(bound(y) == v);
            } else {
                assert(bound(y) == env(y));
            }
        }
        ExprView::Unary { op, e: inner } => {
            lemma_substitution_sound(*inner, x, e, env, v);
        }
        ExprView::Binary { op, left, right } => {
            lemma_substitution_sound(*left, x, e, env, v);
            lemma_substitution_sound(*right, x, e, env, v);
        }
        _ => {}
    }
}

} // verus!
