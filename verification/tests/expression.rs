use workbook::expression::{eval, fits, Expression, Operation};

fn value(v: i64) -> Box<Expression> {
    Box::new(Expression::Value(v))
}

fn op(op: Operation, left: Box<Expression>, right: Box<Expression>) -> Box<Expression> {
    Box::new(Expression::Op { op, left, right })
}

#[test]
fn literal_evaluates_to_itself() {
    assert_eq!(eval(Expression::Value(19)), Ok(19));
    assert_eq!(eval(Expression::Value(i64::MIN)), Ok(i64::MIN));
}

#[test]
fn sum_of_two_literals() {
    assert_eq!(eval(*op(Operation::Add, value(10), value(20))), Ok(30));
}

#[test]
fn division_by_zero_is_reported() {
    assert_eq!(
        eval(*op(Operation::Div, value(99), value(0))),
        Err("ERROR: divide by 0".to_owned())
    );
}

#[test]
fn nested_expression() {
    let e = op(
        Operation::Add,
        op(Operation::Mul, value(10), value(9)),
        op(Operation::Mul, value(5), op(Operation::Sub, value(3), value(4))),
    );
    assert_eq!(eval(*e), Ok(85));
}

#[test]
fn division_rounds_toward_zero() {
    assert_eq!(eval(*op(Operation::Div, value(7), value(2))), Ok(3));
    assert_eq!(eval(*op(Operation::Div, value(-7), value(2))), Ok(-3));
    assert_eq!(eval(*op(Operation::Div, value(7), value(-2))), Ok(-3));
    assert_eq!(eval(*op(Operation::Div, value(-7), value(-2))), Ok(3));
    assert_eq!(eval(*op(Operation::Div, value(0), value(-5))), Ok(0));
}

#[test]
fn failure_deep_in_the_tree_comes_out() {
    let e = op(
        Operation::Sub,
        value(1),
        op(Operation::Mul, value(2), op(Operation::Div, value(3), op(Operation::Sub, value(4), value(4)))),
    );
    assert_eq!(eval(*e), Err("ERROR: divide by 0".to_owned()));
}

#[test]
fn zero_divisor_hides_a_failing_dividend() {
    let failing = op(Operation::Div, value(1), value(0));
    assert_eq!(
        eval(*op(Operation::Div, failing, value(0))),
        Err("ERROR: divide by 0".to_owned())
    );
}

#[test]
fn expressions_in_range_fit() {
    assert!(fits(&Expression::Value(i64::MAX)));
    assert!(fits(&op(Operation::Add, value(i64::MAX), value(-1))));
    assert!(fits(&op(Operation::Sub, value(i64::MIN), value(-1))));
    assert!(fits(&op(Operation::Mul, value(i64::MIN), value(1))));
    assert!(fits(&op(Operation::Div, value(i64::MIN), value(1))));
    assert!(fits(&op(Operation::Div, value(i64::MIN), value(2))));
    assert!(fits(&op(Operation::Div, value(i64::MAX), value(-1))));
    assert_eq!(eval(*op(Operation::Div, value(i64::MIN), value(2))), Ok(i64::MIN / 2));
    assert_eq!(eval(*op(Operation::Div, value(i64::MAX), value(-1))), Ok(-i64::MAX));
}

#[test]
fn expressions_that_leave_the_range_do_not_fit() {
    assert!(!fits(&op(Operation::Add, value(i64::MAX), value(1))));
    assert!(!fits(&op(Operation::Sub, value(i64::MIN), value(1))));
    assert!(!fits(&op(Operation::Mul, value(i64::MAX), value(2))));
    assert!(!fits(&op(Operation::Mul, value(i64::MIN), value(-1))));
    assert!(!fits(&op(Operation::Div, value(i64::MIN), value(-1))));
    assert!(!fits(&op(Operation::Add, value(0), op(Operation::Add, value(i64::MAX), value(1)))));
}

#[test]
fn what_is_never_evaluated_need_not_fit() {
    let overflowing = op(Operation::Add, value(i64::MAX), value(1));
    let failing = op(Operation::Div, value(1), value(0));
    let e = op(Operation::Add, failing, overflowing);
    assert!(fits(&e));
    assert_eq!(eval(*e), Err("ERROR: divide by 0".to_owned()));
    let overflowing = op(Operation::Add, value(i64::MAX), value(1));
    let e = op(Operation::Div, overflowing, value(0));
    assert!(fits(&e));
    assert_eq!(eval(*e), Err("ERROR: divide by 0".to_owned()));
}
