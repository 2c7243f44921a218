//! Arithmetic expression trees and a verified recursive evaluator.
//!
//! An expression is a strict binary tree: every interior node carries one of
//! the four operators and owns exactly two children, and every leaf holds a
//! scalar. Evaluation reduces a tree to a single scalar by evaluating the
//! left child, then the right child, then applying the node's operator.

use vstd::prelude::*;

verus! {

/// The four binary operators an interior node can carry.
pub enum Ope {
    Add,
    Sub,
    Mul,
    Div,
}

/// A node of the tree: either a nested expression or a scalar leaf.
pub enum Value {
    Expr(Box<Expr>),
    Value(i64),
}

/// An expression: one operator applied to a left and a right child.
pub struct Expr {
    pub op: Ope,
    pub values: (Box<Value>, Box<Value>),
}

/// Rust's truncating division (round towards zero), as a function on
/// unbounded integers. It differs from the Euclidean `/` of specifications
/// whenever exactly one operand is negative.
pub open spec fn div_trunc(a: int, b: int) -> int
    recommends
        b != 0,
{
    if a == 0 {
        0
    } else if a > 0 && b > 0 {
        a / b
    } else if a < 0 && b < 0 {
        (a * -1) / (b * -1)
    } else if a < 0 {
        ((a * -1) / b) * -1
    } else {
        (a / (b * -1)) * -1
    }
}

/// What one operator computes from the already-evaluated left and right
/// operands, in that order.
pub open spec fn op_spec(op: Ope, v1: int, v2: int) -> int {
    match op {
        Ope::Add => v1 + v2,
        Ope::Sub => v1 - v2,
        Ope::Mul => v1 * v2,
        Ope::Div => div_trunc(v1, v2),
    }
}

impl Value {
    /// The mathematical value of a node: a leaf is its scalar, a nested
    /// expression is that expression's value.
    pub open spec fn spec_eval(self) -> int
        decreases self,
    {
        match self {
            Value::Expr(expr) => expr.spec_eval(),
            Value::Value(v) => v as int,
        }
    }

    /// Evaluating this node stays within `i64` arithmetic: no division by
    /// zero and no intermediate result outside the `i64` range.
    pub open spec fn evaluable(self) -> bool
        decreases self,
    {
        match self {
            Value::Expr(expr) => expr.evaluable(),
            Value::Value(_) => true,
        }
    }
}

impl Expr {
    /// The mathematical value of the whole expression: the operator applied
    /// to the values of the left and the right child.
    pub open spec fn spec_eval(self) -> int
        decreases self,
    {
        op_spec(self.op, (*self.values.0).spec_eval(), (*self.values.1).spec_eval())
    }

    /// Evaluating this expression stays within `i64` arithmetic: both
    /// children are evaluable, a division never sees a zero divisor, and
    /// this node's own result fits in an `i64`.
    pub open spec fn evaluable(self) -> bool
        decreases self,
    {
        &&& (*self.values.0).evaluable()
        &&& (*self.values.1).evaluable()
        &&& (self.op is Div ==> (*self.values.1).spec_eval() != 0)
        &&& i64::MIN <= self.spec_eval() <= i64::MAX
    }

    /// Reduce the expression to a single scalar: evaluate the left child,
    /// then the right child, then apply the operator to the two results in
    /// that order. The tree is consumed.
    pub fn eval(self) -> (r: Box<i64>)
        requires
            self.evaluable(),
        ensures
            *r == self.spec_eval(),
        decreases self,
    {
        let Expr { op, values } = self;
        let (left, right) = values;
        let v1: i64 = match *left {
            Value::Expr(expr) => *expr.eval(),
            Value::Value(v) => v,
        };
        let v2: i64 = match *right {
            Value::Expr(expr) => *expr.eval(),
            Value::Value(v) => v,
        };
        Box::new(
            match op {
                Ope::Add => v1 + v2,
                Ope::Sub => v1 - v2,
                Ope::Mul => v1 * v2,
                Ope::Div => v1.checked_div(v2).unwrap(),
            },
        )
    }
}

/// Grouping follows the tree structure alone, never an operator precedence:
/// an expression's value is its own operator applied to the values of its
/// left and right child, whatever operators those children hold.
pub proof fn lemma_eval_structure(e: Expr)
    ensures
        e.spec_eval() == op_spec(e.op, (*e.values.0).spec_eval(), (*e.values.1).spec_eval()),
{
}

/// A leaf evaluates to exactly the scalar it holds, unchanged.
pub proof fn lemma_eval_leaf(x: i64)
    ensures
        (Value::Value(x)).spec_eval() == x,
{
}

/// An addition node over two leaves evaluates to the sum of the leaves.
pub proof fn lemma_eval_add(e: Expr, a: i64, b: i64)
    requires
        e.op is Add,
        *e.values.0 == Value::Value(a),
        *e.values.1 == Value::Value(b),
    ensures
        e.spec_eval() == a + b,
{
}

/// A subtraction node over two leaves evaluates to left minus right:
/// the operands reach the operator in left-then-right order.
pub proof fn lemma_eval_sub(e: Expr, a: i64, b: i64)
    requires
        e.op is Sub,
        *e.values.0 == Value::Value(a),
        *e.values.1 == Value::Value(b),
    ensures
        e.spec_eval() == a - b,
{
}

/// A multiplication node over two leaves evaluates to the product of the
/// leaves.
pub proof fn lemma_eval_mul(e: Expr, a: i64, b: i64)
    requires
        e.op is Mul,
        *e.values.0 == Value::Value(a),
        *e.values.1 == Value::Value(b),
    ensures
        e.spec_eval() == a * b,
{
}

/// A division node over two leaves evaluates to left divided by right with
/// `i64`'s own truncating division; for non-negative operands that agrees
/// with Euclidean division.
pub proof fn lemma_eval_div(e: Expr, a: i64, b: i64)
    requires
        e.op is Div,
        *e.values.0 == Value::Value(a),
        *e.values.1 == Value::Value(b),
        b != 0,
    ensures
        e.spec_eval() == div_trunc(a as int, b as int),
        a >= 0 && b > 0 ==> e.spec_eval() == a as int / b as int,
{
}

} // verus!
