//! What expressions evaluate to.

use vstd::prelude::*;
use crate::expr::{BinaryExpr, Expr, UnaryExpr};
use crate::interpreter::{RuntimeError, RuntimeErrorKind};
use crate::number::{is_zero, negated, num_equal, num_less, num_less_equal, ArithOp};
use crate::token::{Object, ObjectView, Token};
use crate::token_type::TokenType;

verus! {

/// What an evaluation comes to: a value, or the error that ended it.
pub type Outcome = Result<ObjectView, RuntimeError>;

/// The outcome that an evaluator's result stands for.
pub open spec fn outcome_of(result: Result<Object, RuntimeError>) -> Outcome {
    match result {
        Ok(value) => Ok(value@),
        Err(error) => Err(error),
    }
}

/// The error of kind `kind` at `operator`.
pub open spec fn failure(kind: RuntimeErrorKind, operator: Token) -> Outcome {
    Err(RuntimeError { kind, token: operator })
}

/// Equality of values: of two numbers, numeric equality; of two strings or
/// two booleans, the same content; nil equals nil; values of different
/// variants are never equal.
pub open spec fn values_equal(a: ObjectView, b: ObjectView) -> bool {
    match (a, b) {
        (ObjectView::Num(x), ObjectView::Num(y)) => num_equal(x, y),
        (ObjectView::Str(x), ObjectView::Str(y)) => x == y,
        (ObjectView::Boolean(x), ObjectView::Boolean(y)) => x == y,
        (ObjectView::Nil, ObjectView::Nil) => true,
        _ => false,
    }
}

/// The outcome of the prefix operator `operator` on `operand`: `-` negates a
/// number, `!` negates a boolean, and any other operand is an error.
pub open spec fn unary_outcome(operator: Token, operand: ObjectView) -> Outcome
    recommends
        prefix_operator(operator.ttype),
{
    match operator.ttype {
        TokenType::Minus => match operand {
            ObjectView::Num(bits) => Ok(ObjectView::Num(negated(bits))),
            _ => failure(RuntimeErrorKind::OperandNotNumber, operator),
        },
        TokenType::Bang => match operand {
            ObjectView::Boolean(b) => Ok(ObjectView::Boolean(!b)),
            _ => failure(RuntimeErrorKind::OperandNotBoolean, operator),
        },
        _ => arbitrary(),
    }
}

/// What an infix operator comes to once its operands are known: an outcome,
/// or a rounding operation whose result is the value.
pub enum OperationView {
    Done(Outcome),
    Compute(ArithOp, u64, u64),
}

/// The arithmetic operator `op` on `left` and `right`: the operation on two
/// numbers, else an error.
pub open spec fn arithmetic(op: ArithOp, operator: Token, left: ObjectView, right: ObjectView)
    -> OperationView {
    match (left, right) {
        (ObjectView::Num(a), ObjectView::Num(b)) => OperationView::Compute(op, a, b),
        _ => OperationView::Done(failure(RuntimeErrorKind::OperandsNotNumbers, operator)),
    }
}

/// A comparison of `left` and `right`, which holds of two numbers where
/// `holds` says so: a boolean for two numbers, else an error.
pub open spec fn comparison(
    holds: spec_fn(u64, u64) -> bool,
    operator: Token,
    left: ObjectView,
    right: ObjectView,
) -> OperationView {
    match (left, right) {
        (ObjectView::Num(a), ObjectView::Num(b)) => OperationView::Done(
            Ok(ObjectView::Boolean(holds(a, b))),
        ),
        _ => OperationView::Done(failure(RuntimeErrorKind::OperandsNotNumbers, operator)),
    }
}

/// What the infix operator `operator` comes to on the values `left` and
/// `right`.
pub open spec fn binary_operation(operator: Token, left: ObjectView, right: ObjectView)
    -> OperationView
    recommends
        infix_operator(operator.ttype),
{
    match operator.ttype {
        TokenType::Minus => arithmetic(ArithOp::Subtract, operator, left, right),
        TokenType::Star => arithmetic(ArithOp::Multiply, operator, left, right),
        TokenType::Exponent => arithmetic(ArithOp::Power, operator, left, right),
        TokenType::Slash => match (left, right) {
            (ObjectView::Num(a), ObjectView::Num(b)) => if is_zero(b) {
                OperationView::Done(failure(RuntimeErrorKind::DivideByZero, operator))
            } else {
                OperationView::Compute(ArithOp::Divide, a, b)
            },
            _ => OperationView::Done(failure(RuntimeErrorKind::OperandsNotNumbers, operator)),
        },
        TokenType::Plus => match (left, right) {
            (ObjectView::Num(a), ObjectView::Num(b)) => OperationView::Compute(ArithOp::Add, a, b),
            (ObjectView::Str(a), ObjectView::Str(b)) => OperationView::Done(
                Ok(ObjectView::Str(a + b)),
            ),
            _ => OperationView::Done(
                failure(RuntimeErrorKind::OperandsNotNumbersOrStrings, operator),
            ),
        },
        TokenType::Greater => comparison(|a: u64, b: u64| num_less(b, a), operator, left, right),
        TokenType::GreaterEqual => comparison(
            |a: u64, b: u64| num_less_equal(b, a),
            operator,
            left,
            right,
        ),
        TokenType::Less => comparison(|a: u64, b: u64| num_less(a, b), operator, left, right),
        TokenType::LessEqual => comparison(
            |a: u64, b: u64| num_less_equal(a, b),
            operator,
            left,
            right,
        ),
        TokenType::BangEqual => OperationView::Done(
            Ok(ObjectView::Boolean(!values_equal(left, right))),
        ),
        TokenType::Equals => OperationView::Done(
            Ok(ObjectView::Boolean(values_equal(left, right))),
        ),
        _ => arbitrary(),
    }
}

/// `ttype` is an infix operator.
pub open spec fn infix_operator(ttype: TokenType) -> bool {
    ttype == TokenType::Minus || ttype == TokenType::Plus || ttype == TokenType::Slash || ttype
        == TokenType::Star || ttype == TokenType::Exponent || ttype == TokenType::Greater || ttype
        == TokenType::GreaterEqual || ttype == TokenType::Less || ttype == TokenType::LessEqual
        || ttype == TokenType::BangEqual || ttype == TokenType::Equals
}

/// `ttype` is a prefix operator.
pub open spec fn prefix_operator(ttype: TokenType) -> bool {
    ttype == TokenType::Minus || ttype == TokenType::Bang
}

/// Every operator in `expr` is one that its node can be evaluated with: an
/// infix operator in a binary node, a prefix operator in a unary node.
pub open spec fn evaluable(expr: Expr) -> bool
    decreases expr,
{
    match expr {
        Expr::Binary(binary) => infix_operator(binary.operator.ttype) && evaluable(*binary.left)
            && evaluable(*binary.right),
        Expr::Grouping(grouping) => evaluable(*grouping.expr),
        Expr::Unary(unary) => prefix_operator(unary.operator.ttype) && evaluable(*unary.right),
        Expr::Literal(_) => true,
    }
}

/// `arith` can be called on every operation that an evaluation asks for:
/// every operation but a division by zero.
pub open spec fn rounds<A: Fn(ArithOp, u64, u64) -> u64>(arith: A) -> bool {
    forall|op: ArithOp, a: u64, b: u64|
        !(op == ArithOp::Divide && is_zero(b)) ==> call_requires(arith, (op, a, b))
}

/// `out` is a value that `arith` gives for `op` on `a` and `b`.
pub open spec fn rounded<A: Fn(ArithOp, u64, u64) -> u64>(
    arith: A,
    op: ArithOp,
    a: u64,
    b: u64,
    out: Outcome,
) -> bool {
    exists|bits: u64| #[trigger]
        call_ensures(arith, (op, a, b), bits) && out == Ok::<ObjectView, RuntimeError>(
            ObjectView::Num(bits),
        )
}

/// `out` is an outcome of the operation `operation` where `arith` rounds.
pub open spec fn completes<A: Fn(ArithOp, u64, u64) -> u64>(
    arith: A,
    operation: OperationView,
    out: Outcome,
) -> bool {
    match operation {
        OperationView::Done(outcome) => out == outcome,
        OperationView::Compute(op, a, b) => rounded(arith, op, a, b, out),
    }
}

/// `out` is the outcome of the prefix operator `operator` where its operand
/// came to `operand`: the operand's error, or the outcome of the operator on
/// its value.
pub open spec fn unary_rule(operator: Token, operand: Outcome, out: Outcome) -> bool {
    match operand {
        Ok(value) => out == unary_outcome(operator, value),
        Err(error) => out == operand,
    }
}

/// `out` is an outcome of the infix operator `operator` where its operands
/// came to `left` and `right`: the error of the left operand, else the error
/// of the right operand, else an outcome of the operation on their values.
pub open spec fn binary_rule<A: Fn(ArithOp, u64, u64) -> u64>(
    arith: A,
    operator: Token,
    left: Outcome,
    right: Outcome,
    out: Outcome,
) -> bool {
    match left {
        Ok(a) => match right {
            Ok(b) => completes(arith, binary_operation(operator, a, b), out),
            Err(error) => out == right,
        },
        Err(error) => out == left,
    }
}

/// `out` is an outcome of evaluating `expr` where `arith` rounds.
///
/// A literal evaluates to its value and a group to what its inner expression
/// evaluates to. An operator is applied to the outcomes of its operands, the
/// left one first; the first error among them is the outcome, and the right
/// operand is not evaluated after an error of the left one.
pub open spec fn evaluates<A: Fn(ArithOp, u64, u64) -> u64>(arith: A, expr: Expr, out: Outcome)
    -> bool
    decreases expr,
{
    match expr {
        Expr::Literal(literal) => out == Ok::<ObjectView, RuntimeError>(literal.value@),
        Expr::Grouping(grouping) => evaluates(arith, *grouping.expr, out),
        Expr::Unary(unary) => unary_evaluates(arith, unary, out),
        Expr::Binary(binary) => binary_evaluates(arith, binary, out),
    }
}

/// `out` is an outcome of evaluating the prefix expression `unary`.
pub open spec fn unary_evaluates<A: Fn(ArithOp, u64, u64) -> u64>(
    arith: A,
    unary: UnaryExpr,
    out: Outcome,
) -> bool
    decreases unary,
{
    exists|operand: Outcome|
        evaluates(arith, *unary.right, operand) && #[trigger] unary_rule(
            unary.operator,
            operand,
            out,
        )
}

/// `out` is an outcome of evaluating the infix expression `binary`.
pub open spec fn binary_evaluates<A: Fn(ArithOp, u64, u64) -> u64>(
    arith: A,
    binary: BinaryExpr,
    out: Outcome,
) -> bool
    decreases binary,
{
    exists|left: Outcome, right: Outcome|
        evaluates(arith, *binary.left, left) && (left is Ok ==> evaluates(
            arith,
            *binary.right,
            right,
        )) && #[trigger] binary_rule(arith, binary.operator, left, right, out)
}

/// A prefix operator comes to the error of its operand, or to the outcome of
/// the operator on the operand's value.
pub proof fn lemma_unary_evaluates<A: Fn(ArithOp, u64, u64) -> u64>(
    arith: A,
    unary: UnaryExpr,
    operand: Outcome,
    out: Outcome,
)
    requires
        evaluates(arith, *unary.right, operand),
        unary_rule(unary.operator, operand, out),
    ensures
        evaluates(arith, Expr::Unary(unary), out),
{
    reveal_with_fuel(evaluates, 2);
}

/// An infix operator comes to the first error among its operands, or to an
/// outcome of the operation on their values.
pub proof fn lemma_binary_evaluates<A: Fn(ArithOp, u64, u64) -> u64>(
    arith: A,
    binary: BinaryExpr,
    left: Outcome,
    right: Outcome,
    out: Outcome,
)
    requires
        evaluates(arith, *binary.left, left),
        left is Ok ==> evaluates(arith, *binary.right, right),
        binary_rule(arith, binary.operator, left, right, out),
    ensures
        evaluates(arith, Expr::Binary(binary), out),
{
    reveal_with_fuel(evaluates, 2);
}

/// Every result that `arith` gives is the one that `exact` names.
pub open spec fn agrees<A: Fn(ArithOp, u64, u64) -> u64>(
    arith: A,
    exact: spec_fn(ArithOp, u64, u64) -> u64,
) -> bool {
    forall|op: ArithOp, a: u64, b: u64, bits: u64| #[trigger]
        call_ensures(arith, (op, a, b), bits) ==> bits == exact(op, a, b)
}

/// The outcome of `expr` under the arithmetic `exact`: the operators applied
/// to the outcomes of their operands, from the leaves up, the left operand
/// before the right one, with `exact` for every rounding operation.
pub open spec fn value_under(exact: spec_fn(ArithOp, u64, u64) -> u64, expr: Expr) -> Outcome
    decreases expr,
{
    match expr {
        Expr::Literal(literal) => Ok(literal.value@),
        Expr::Grouping(grouping) => value_under(exact, *grouping.expr),
        Expr::Unary(unary) => match value_under(exact, *unary.right) {
            Ok(value) => unary_outcome(unary.operator, value),
            Err(error) => Err(error),
        },
        Expr::Binary(binary) => match value_under(exact, *binary.left) {
            Ok(a) => match value_under(exact, *binary.right) {
                Ok(b) => match binary_operation(binary.operator, a, b) {
                    OperationView::Done(outcome) => outcome,
                    OperationView::Compute(op, x, y) => Ok(ObjectView::Num(exact(op, x, y))),
                },
                Err(error) => Err(error),
            },
            Err(error) => Err(error),
        },
    }
}

/// Evaluation follows the arithmetic: where every result of `arith` is the
/// one that `exact` names, an expression has one outcome only, the one that
/// it has under `exact`.
pub proof fn evaluation_follows_arithmetic<A: Fn(ArithOp, u64, u64) -> u64>(
    arith: A,
    exact: spec_fn(ArithOp, u64, u64) -> u64,
    expr: Expr,
    out: Outcome,
)
    requires
        agrees(arith, exact),
        evaluates(arith, expr, out),
    ensures
        out == value_under(exact, expr),
    decreases expr,
{
    reveal_with_fuel(evaluates, 2);
    match expr {
        Expr::Literal(literal) => {},
        Expr::Grouping(grouping) => {
            evaluation_follows_arithmetic(arith, exact, *grouping.expr, out);
        },
        Expr::Unary(unary) => {
            let operand = choose|operand: Outcome|
                evaluates(arith, *unary.right, operand) && #[trigger] unary_rule(
                    unary.operator,
                    operand,
                    out,
                );
            evaluation_follows_arithmetic(arith, exact, *unary.right, operand);
        },
        Expr::Binary(binary) => {
            let (left, right) = choose|left: Outcome, right: Outcome|
                evaluates(arith, *binary.left, left) && (left is Ok ==> evaluates(
                    arith,
                    *binary.right,
                    right,
                )) && #[trigger] binary_rule(arith, binary.operator, left, right, out);
            evaluation_follows_arithmetic(arith, exact, *binary.left, left);
            if left is Ok {
                evaluation_follows_arithmetic(arith, exact, *binary.right, right);
            }
        },
    }
}

/// `ttype` is one of `+`, `-`, `*`, `/` and `^`.
pub open spec fn arithmetic_operator(ttype: TokenType) -> bool {
    ttype == TokenType::Plus || ttype == TokenType::Minus || ttype == TokenType::Star || ttype
        == TokenType::Slash || ttype == TokenType::Exponent
}

/// The rounding operation of the arithmetic operator `ttype`.
pub open spec fn operation_of(ttype: TokenType) -> ArithOp {
    if ttype == TokenType::Plus {
        ArithOp::Add
    } else if ttype == TokenType::Minus {
        ArithOp::Subtract
    } else if ttype == TokenType::Star {
        ArithOp::Multiply
    } else if ttype == TokenType::Slash {
        ArithOp::Divide
    } else {
        ArithOp::Power
    }
}

/// `expr` is built from numbers, arithmetic operators and groups only.
pub open spec fn arithmetic_only(expr: Expr) -> bool
    decreases expr,
{
    match expr {
        Expr::Literal(literal) => literal.value is Num,
        Expr::Grouping(grouping) => arithmetic_only(*grouping.expr),
        Expr::Unary(_) => false,
        Expr::Binary(binary) => arithmetic_operator(binary.operator.ttype) && arithmetic_only(
            *binary.left,
        ) && arithmetic_only(*binary.right),
    }
}

/// The number that the arithmetic expression `expr` stands for under
/// `exact`, or the `/` whose divisor is zero: the first one in the order of
/// evaluation.
pub open spec fn arithmetic_value(exact: spec_fn(ArithOp, u64, u64) -> u64, expr: Expr) -> Result<
    u64,
    Token,
>
    decreases expr,
{
    match expr {
        Expr::Literal(literal) => Ok(literal.value->Num_0),
        Expr::Grouping(grouping) => arithmetic_value(exact, *grouping.expr),
        Expr::Unary(unary) => arithmetic_value(exact, *unary.right),
        Expr::Binary(binary) => match arithmetic_value(exact, *binary.left) {
            Ok(a) => match arithmetic_value(exact, *binary.right) {
                Ok(b) => if binary.operator.ttype == TokenType::Slash && is_zero(b) {
                    Err(binary.operator)
                } else {
                    Ok(exact(operation_of(binary.operator.ttype), a, b))
                },
                Err(slash) => Err(slash),
            },
            Err(slash) => Err(slash),
        },
    }
}

/// Arithmetic is evaluated as it is written: an expression built from
/// numbers, `+`, `-`, `*`, `/`, `^` and groups comes to the number that it
/// stands for, each operator applied to the numbers of its operands, or to
/// the divide-by-zero error at the first `/` whose divisor is zero, and to
/// nothing else.
pub proof fn arithmetic_is_evaluated_as_written<A: Fn(ArithOp, u64, u64) -> u64>(
    arith: A,
    exact: spec_fn(ArithOp, u64, u64) -> u64,
    expr: Expr,
    out: Outcome,
)
    requires
        agrees(arith, exact),
        arithmetic_only(expr),
        evaluates(arith, expr, out),
    ensures
        out == match arithmetic_value(exact, expr) {
            Ok(number) => Ok::<ObjectView, RuntimeError>(ObjectView::Num(number)),
            Err(slash) => failure(RuntimeErrorKind::DivideByZero, slash),
        },
{
    evaluation_follows_arithmetic(arith, exact, expr, out);
    lemma_arithmetic_value(exact, expr);
}

/// Under `exact`, the outcome of an arithmetic expression is the number that
/// it stands for, or the divide-by-zero error.
pub proof fn lemma_arithmetic_value(exact: spec_fn(ArithOp, u64, u64) -> u64, expr: Expr)
    requires
        arithmetic_only(expr),
    ensures
        value_under(exact, expr) == match arithmetic_value(exact, expr) {
            Ok(number) => Ok::<ObjectView, RuntimeError>(ObjectView::Num(number)),
            Err(slash) => failure(RuntimeErrorKind::DivideByZero, slash),
        },
    decreases expr,
{
    match expr {
        Expr::Literal(literal) => {},
        Expr::Grouping(grouping) => {
            lemma_arithmetic_value(exact, *grouping.expr);
        },
        Expr::Unary(unary) => {},
        Expr::Binary(binary) => {
            lemma_arithmetic_value(exact, *binary.left);
            lemma_arithmetic_value(exact, *binary.right);
        },
    }
}

/// `out` is a number.
pub open spec fn number_outcome(out: Outcome) -> bool {
    out matches Ok(ObjectView::Num(_))
}

/// `out` is a zero.
pub open spec fn zero_outcome(out: Outcome) -> bool {
    out matches Ok(ObjectView::Num(b)) && is_zero(b)
}

/// Division by zero is an error: where the divisor of a `/` can only come to
/// a zero, and the dividend only to a number, the division comes to the
/// divide-by-zero error at its operator and to nothing else.
pub proof fn division_by_zero_fails<A: Fn(ArithOp, u64, u64) -> u64>(
    arith: A,
    binary: BinaryExpr,
    out: Outcome,
)
    requires
        binary.operator.ttype == TokenType::Slash,
        forall|left: Outcome| #[trigger]
            evaluates(arith, *binary.left, left) ==> number_outcome(left),
        forall|right: Outcome| #[trigger]
            evaluates(arith, *binary.right, right) ==> zero_outcome(right),
        evaluates(arith, Expr::Binary(binary), out),
    ensures
        out == failure(RuntimeErrorKind::DivideByZero, binary.operator),
{
    reveal_with_fuel(evaluates, 2);
    let (left, right) = choose|left: Outcome, right: Outcome|
        evaluates(arith, *binary.left, left) && (left is Ok ==> evaluates(
            arith,
            *binary.right,
            right,
        )) && #[trigger] binary_rule(arith, binary.operator, left, right, out);
}

/// A division of a number by a zero never asks for arithmetic: it is the
/// divide-by-zero error whatever the dividend.
pub proof fn zero_divisor_is_an_error(operator: Token, a: u64, b: u64)
    requires
        operator.ttype == TokenType::Slash,
        is_zero(b),
    ensures
        binary_operation(operator, ObjectView::Num(a), ObjectView::Num(b)) == OperationView::Done(
            failure(RuntimeErrorKind::DivideByZero, operator),
        ),
{
}

/// The variant of a value.
pub enum Variant {
    Number,
    Text,
    Boolean,
    Nil,
}

/// The variant of `value`.
pub open spec fn variant_of(value: ObjectView) -> Variant {
    match value {
        ObjectView::Num(_) => Variant::Number,
        ObjectView::Str(_) => Variant::Text,
        ObjectView::Boolean(_) => Variant::Boolean,
        ObjectView::Nil => Variant::Nil,
    }
}

/// Equality never fails, and values of different variants are unequal: `==`
/// and `!=` come to a boolean on every pair of values, and on values of
/// different variants `==` comes to false and `!=` to true.
pub proof fn equality_never_fails(operator: Token, left: ObjectView, right: ObjectView)
    requires
        operator.ttype == TokenType::Equals || operator.ttype == TokenType::BangEqual,
    ensures
        binary_operation(operator, left, right) == OperationView::Done(
            Ok(ObjectView::Boolean(values_equal(left, right) == (operator.ttype == TokenType::Equals))),
        ),
        variant_of(left) != variant_of(right) ==> !values_equal(left, right),
{
}

/// `left` and `right` are values of different variants.
pub open spec fn different_variants(left: Outcome, right: Outcome) -> bool {
    left matches Ok(a) && right matches Ok(b) && variant_of(a) != variant_of(b)
}

/// Equality in an expression never fails of itself: an error of `==` or
/// `!=` is an error of one of its operands.
pub proof fn equality_fails_with_operand<A: Fn(ArithOp, u64, u64) -> u64>(
    arith: A,
    binary: BinaryExpr,
    out: Outcome,
)
    requires
        binary.operator.ttype == TokenType::Equals || binary.operator.ttype
            == TokenType::BangEqual,
        evaluates(arith, Expr::Binary(binary), out),
        out is Err,
    ensures
        evaluates(arith, *binary.left, out) || evaluates(arith, *binary.right, out),
{
    reveal_with_fuel(evaluates, 2);
    let (left, right) = choose|left: Outcome, right: Outcome|
        evaluates(arith, *binary.left, left) && (left is Ok ==> evaluates(
            arith,
            *binary.right,
            right,
        )) && #[trigger] binary_rule(arith, binary.operator, left, right, out);
    if left is Ok && right is Ok {
        equality_never_fails(binary.operator, left->Ok_0, right->Ok_0);
    }
}

/// Equality across variants in an expression: where the left operand of `==`
/// or `!=` can only come to a value, and the two operands only to values of
/// different variants, `==` comes to false and `!=` to true.
pub proof fn equality_across_variants<A: Fn(ArithOp, u64, u64) -> u64>(
    arith: A,
    binary: BinaryExpr,
    out: Outcome,
)
    requires
        binary.operator.ttype == TokenType::Equals || binary.operator.ttype
            == TokenType::BangEqual,
        forall|left: Outcome| #[trigger] evaluates(arith, *binary.left, left) ==> left is Ok,
        forall|left: Outcome, right: Outcome|
            evaluates(arith, *binary.left, left) && evaluates(arith, *binary.right, right)
                ==> #[trigger] different_variants(left, right),
        evaluates(arith, Expr::Binary(binary), out),
    ensures
        out == Ok::<ObjectView, RuntimeError>(
            ObjectView::Boolean(binary.operator.ttype == TokenType::BangEqual),
        ),
{
    reveal_with_fuel(evaluates, 2);
    let (left, right) = choose|left: Outcome, right: Outcome|
        evaluates(arith, *binary.left, left) && (left is Ok ==> evaluates(
            arith,
            *binary.right,
            right,
        )) && #[trigger] binary_rule(arith, binary.operator, left, right, out);
    assert(different_variants(left, right));
    equality_never_fails(binary.operator, left->Ok_0, right->Ok_0);
}

} // verus!
