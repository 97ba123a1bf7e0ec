//! Arithmetic expressions over 64-bit integers and their evaluation.

use vstd::prelude::*;

verus! {

/// The four operations of an inner node.
pub enum Operation {
    Add,
    Sub,
    Mul,
    Div,
}

/// An expression: an operation on two subexpressions, or a literal value.
pub enum Expression {
    Op { op: Operation, left: Box<Expression>, right: Box<Expression> },
    Value(i64),
}

/// The quotient of `l` by `r` rounded toward zero, as the machine divides.
pub open spec fn quotient(l: int, r: int) -> int
    recommends
        r != 0,
{
    if l >= 0 {
        l / r
    } else {
        -((-l) / r)
    }
}

/// Whether `v` can be held in an `i64`.
pub open spec fn representable(v: int) -> bool {
    i64::MIN <= v <= i64::MAX
}

impl Expression {
    /// The number that the expression denotes, or `None` where evaluating it
    /// meets a division by zero. A division looks at its divisor first and
    /// every other operation at its left operand first, and nothing is
    /// evaluated behind the first failure.
    pub open spec fn value(self) -> Option<int>
        decreases self,
    {
        match self {
            Expression::Value(v) => Some(v as int),
            Expression::Op { op: Operation::Div, left, right } => match right.value() {
                None => None,
                Some(r) => if r == 0 {
                    None
                } else {
                    match left.value() {
                        None => None,
                        Some(l) => Some(quotient(l, r)),
                    }
                },
            },
            Expression::Op { op, left, right } => match left.value() {
                None => None,
                Some(l) => match right.value() {
                    None => None,
                    Some(r) => Some(
                        match op {
                            Operation::Add => l + r,
                            Operation::Sub => l - r,
                            _ => l * r,
                        },
                    ),
                },
            },
        }
    }

    /// Whether every number that evaluating the expression computes can be
    /// held in an `i64`.
    pub open spec fn in_range(self) -> bool
        decreases self,
    {
        match self {
            Expression::Value(v) => true,
            Expression::Op { op: Operation::Div, left, right } => right.in_range() && (
            right.value() is Some && right.value() != Some(0int) ==> left.in_range()) && (
            self.value() is Some ==> representable(self.value().unwrap())),
            Expression::Op { op, left, right } => left.in_range() && (left.value() is Some
                ==> right.in_range()) && (self.value() is Some ==> representable(
                self.value().unwrap(),
            )),
        }
    }
}

/// The text of the one error that evaluation reports.
pub open spec fn divide_by_zero_message() -> Seq<char> {
    "ERROR: divide by 0"@
}

/// Evaluates `e`: `Ok` with the number it denotes, or `Err` with the message
/// above where a division by zero is met.
pub fn eval(e: Expression) -> (r: Result<i64, String>)
    requires
        e.in_range(),
    ensures
        match e.value() {
            Some(v) => r is Ok && r->Ok_0 == v,
            None => r is Err && r->Err_0@ == divide_by_zero_message(),
        },
    decreases e,
{
    match e {
        Expression::Value(v) => Ok(v),
        Expression::Op { op, left, right } => match op {
            Operation::Div => match eval(*right) {
                Err(message) => Err(message),
                Ok(r) => if r == 0 {
                    Err("ERROR: divide by 0".to_owned())
                } else {
                    match eval(*left) {
                        Err(message) => Err(message),
                        Ok(l) => Ok(l / r),
                    }
                },
            },
            Operation::Add => match eval(*left) {
                Err(message) => Err(message),
                Ok(l) => match eval(*right) {
                    Err(message) => Err(message),
                    Ok(r) => Ok(l + r),
                },
            },
            Operation::Sub => match eval(*left) {
                Err(message) => Err(message),
                Ok(l) => match eval(*right) {
                    Err(message) => Err(message),
                    Ok(r) => Ok(l - r),
                },
            },
            Operation::Mul => match eval(*left) {
                Err(message) => Err(message),
                Ok(l) => match eval(*right) {
                    Err(message) => Err(message),
                    Ok(r) => Ok(l * r),
                },
            },
        },
    }
}

/// A quotient of two numbers in range is in range but for the one division
/// of the least number by minus one.
pub proof fn lemma_quotient_in_range(l: int, r: int)
    requires
        representable(l),
        representable(r),
        r != 0,
        !(l == i64::MIN && r == -1),
    ensures
        representable(quotient(l, r)),
{
    let n = if l >= 0 {
        l
    } else {
        -l
    };
    let q = n / r;
    let m = n % r;
    assert(n == r * q + m && 0 <= m && (r > 0 ==> m < r) && (r < 0 ==> m < -r))
        by (nonlinear_arith)
        requires
            r != 0,
            q == n / r,
            m == n % r,
    ;
    if r > 0 {
        assert(0 <= q <= n) by (nonlinear_arith)
            requires
                n == r * q + m,
                0 <= m < r,
                n >= 0,
        ;
    } else {
        assert(-n <= q <= 0 && (q == -n && n > 0 ==> r == -1)) by (nonlinear_arith)
            requires
                n == r * q + m,
                0 <= m < -r,
                n >= 0,
                r < 0,
        ;
    }
}

/// What evaluating `e` comes to where every number stays in range: the
/// number, or `None` for a division by zero. `None` outside where a number
/// leaves the range.
fn bounded(e: &Expression) -> (r: Option<Option<i64>>)
    ensures
        r is Some <==> e.in_range(),
        r matches Some(found) ==> match e.value() {
            Some(v) => found is Some && found->Some_0 == v,
            None => found is None,
        },
    decreases e,
{
    match e {
        Expression::Value(v) => Some(Some(*v)),
        Expression::Op { op, left, right } => match op {
            Operation::Div => match bounded(right) {
                None => None,
                Some(None) => Some(None),
                Some(Some(r)) => if r == 0 {
                    Some(None)
                } else {
                    match bounded(left) {
                        None => None,
                        Some(None) => Some(None),
                        Some(Some(l)) => if l == i64::MIN && r == -1 {
                            None
                        } else {
                            proof {
                                lemma_quotient_in_range(l as int, r as int);
                            }
                            Some(Some(l / r))
                        },
                    }
                },
            },
            Operation::Add => match bounded(left) {
                None => None,
                Some(None) => Some(None),
                Some(Some(l)) => match bounded(right) {
                    None => None,
                    Some(None) => Some(None),
                    Some(Some(r)) => match l.checked_add(r) {
                        None => None,
                        Some(v) => Some(Some(v)),
                    },
                },
            },
            Operation::Sub => match bounded(left) {
                None => None,
                Some(None) => Some(None),
                Some(Some(l)) => match bounded(right) {
                    None => None,
                    Some(None) => Some(None),
                    Some(Some(r)) => match l.checked_sub(r) {
                        None => None,
                        Some(v) => Some(Some(v)),
                    },
                },
            },
            Operation::Mul => match bounded(left) {
                None => None,
                Some(None) => Some(None),
                Some(Some(l)) => match bounded(right) {
                    None => None,
                    Some(None) => Some(None),
                    Some(Some(r)) => match l.checked_mul(r) {
                        None => None,
                        Some(v) => Some(Some(v)),
                    },
                },
            },
        },
    }
}

/// Whether `e` can be evaluated: whether every number that evaluating it
/// computes can be held in an `i64`.
pub fn fits(e: &Expression) -> (r: bool)
    ensures
        r == e.in_range(),
{
    bounded(e).is_some()
}

} // verus!
