//! The evaluator: runtime errors, the operators on values, and the walk over
//! an expression.

use vstd::prelude::*;
use vstd::string::StringExecFns;
use crate::error::{runtime_error_text, Lox};
use crate::expr::{BinaryExpr, Expr, ExprVisitor, GroupingExpr, LiteralExpr, UnaryExpr};
use crate::number::{equal, less, less_equal, negate, zero, ArithOp};
use crate::semantics::{
    binary_operation,
    evaluable,
    evaluates,
    failure,
    infix_operator,
    lemma_binary_evaluates,
    lemma_unary_evaluates,
    outcome_of,
    prefix_operator,
    rounds,
    unary_outcome,
    values_equal,
    OperationView,
};
use crate::token::{shown, Object, Token};
use crate::token_type::TokenType;

verus! {

/// The runtime errors.
#[derive(Debug, Clone, Copy, PartialEq, Eq, Structural)]
pub enum RuntimeErrorKind {
    /// The operand of `-` is not a number.
    OperandNotNumber,
    /// The operand of `!` is not a boolean.
    OperandNotBoolean,
    /// An operand of an arithmetic or comparison operator is not a number.
    OperandsNotNumbers,
    /// The operands of `+` are neither two numbers nor two strings.
    OperandsNotNumbersOrStrings,
    /// The divisor is zero.
    DivideByZero,
}

/// A runtime error: its kind and the operator at which it arose.
#[derive(Debug, PartialEq)]
pub struct RuntimeError {
    pub kind: RuntimeErrorKind,
    pub token: Token,
}

impl Clone for RuntimeError {
    fn clone(&self) -> (r: Self)
        ensures
            r == *self,
    {
        RuntimeError { kind: self.kind, token: self.token.clone() }
    }
}

/// The message of a runtime error of kind `kind`.
pub open spec fn runtime_message(kind: RuntimeErrorKind) -> Seq<char> {
    match kind {
        RuntimeErrorKind::OperandNotNumber => "operand must be a number"@,
        RuntimeErrorKind::OperandNotBoolean => "operand must be a boolean"@,
        RuntimeErrorKind::OperandsNotNumbers => "operands must be two numbers"@,
        RuntimeErrorKind::OperandsNotNumbersOrStrings =>
            "operands must be two numbers or two strings"@,
        RuntimeErrorKind::DivideByZero => "cannot divide by zero"@,
    }
}

impl RuntimeError {
    pub fn new(kind: RuntimeErrorKind, token: Token) -> (r: Self)
        ensures
            r == (RuntimeError { kind, token }),
    {
        RuntimeError { kind, token }
    }

    /// The message of this error.
    pub fn message(&self) -> (r: &'static str)
        ensures
            r@ == runtime_message(self.kind),
    {
        match self.kind {
            RuntimeErrorKind::OperandNotNumber => "operand must be a number",
            RuntimeErrorKind::OperandNotBoolean => "operand must be a boolean",
            RuntimeErrorKind::OperandsNotNumbers => "operands must be two numbers",
            RuntimeErrorKind::OperandsNotNumbersOrStrings =>
                "operands must be two numbers or two strings",
            RuntimeErrorKind::DivideByZero => "cannot divide by zero",
        }
    }

    /// The report of this error: its message and the line of its operator.
    pub fn report(&self) -> (r: String)
        ensures
            r@ == runtime_error_text(self.token, runtime_message(self.kind)),
    {
        Lox::runtime_error(&self.token, self.message())
    }
}

/// Equality of two values.
pub fn is_equal(a: &Object, b: &Object) -> (r: bool)
    ensures
        r == values_equal(a@, b@),
{
    match (a, b) {
        (Object::Num(a), Object::Num(b)) => equal(*a, *b),
        (Object::Str(a), Object::Str(b)) => *a == *b,
        (Object::Boolean(a), Object::Boolean(b)) => *a == *b,
        (Object::Nil, Object::Nil) => true,
        _ => false,
    }
}

/// What `unary_operation` and `binary_operation` return: the value or error
/// that the operator comes to, or the rounding operation that gives its
/// value.
#[derive(Debug, PartialEq)]
pub enum Operation {
    Done(Result<Object, RuntimeError>),
    Compute(ArithOp, u64, u64),
}

impl View for Operation {
    type V = OperationView;

    open spec fn view(&self) -> OperationView {
        match self {
            Operation::Done(result) => OperationView::Done(outcome_of(*result)),
            Operation::Compute(op, a, b) => OperationView::Compute(*op, *a, *b),
        }
    }
}

/// Applies the prefix operator `operator` to `operand`.
pub fn apply_unary(operator: &Token, operand: &Object) -> (r: Result<Object, RuntimeError>)
    requires
        prefix_operator(operator.ttype),
    ensures
        outcome_of(r) == unary_outcome(*operator, operand@),
{
    match operator.ttype {
        TokenType::Minus => {
            match operand {
                Object::Num(num) => Ok(Object::Num(negate(*num))),
                _ => Err(RuntimeError::new(RuntimeErrorKind::OperandNotNumber, operator.clone())),
            }
        },
        TokenType::Bang => {
            match operand {
                Object::Boolean(b) => Ok(Object::Boolean(!*b)),
                _ => Err(RuntimeError::new(RuntimeErrorKind::OperandNotBoolean, operator.clone())),
            }
        },
        _ => vstd::pervasive::unreached(),
    }
}

fn numbers_expected(operator: &Token) -> (r: Operation)
    ensures
        r@ == OperationView::Done(failure(RuntimeErrorKind::OperandsNotNumbers, *operator)),
{
    Operation::Done(Err(RuntimeError::new(RuntimeErrorKind::OperandsNotNumbers, operator.clone())))
}

/// Decides what the infix operator `operator` comes to on `left` and `right`:
/// its value, its error, or the rounding operation that gives its value.
pub fn apply_binary(operator: &Token, left: &Object, right: &Object) -> (r: Operation)
    requires
        infix_operator(operator.ttype),
    ensures
        r@ == binary_operation(*operator, left@, right@),
{
    match operator.ttype {
        TokenType::Minus => {
            match (left, right) {
                (Object::Num(a), Object::Num(b)) => Operation::Compute(ArithOp::Subtract, *a, *b),
                _ => numbers_expected(operator),
            }
        },
        TokenType::Slash => {
            match (left, right) {
                (Object::Num(a), Object::Num(b)) => {
                    if zero(*b) {
                        return Operation::Done(
                            Err(
                                RuntimeError::new(
                                    RuntimeErrorKind::DivideByZero,
                                    operator.clone(),
                                ),
                            ),
                        );
                    }
                    Operation::Compute(ArithOp::Divide, *a, *b)
                },
                _ => numbers_expected(operator),
            }
        },
        TokenType::Star => {
            match (left, right) {
                (Object::Num(a), Object::Num(b)) => Operation::Compute(ArithOp::Multiply, *a, *b),
                _ => numbers_expected(operator),
            }
        },
        TokenType::Exponent => {
            match (left, right) {
                (Object::Num(a), Object::Num(b)) => Operation::Compute(ArithOp::Power, *a, *b),
                _ => numbers_expected(operator),
            }
        },
        TokenType::Plus => {
            match (left, right) {
                (Object::Num(a), Object::Num(b)) => Operation::Compute(ArithOp::Add, *a, *b),
                (Object::Str(a), Object::Str(b)) => Operation::Done(
                    Ok(Object::Str(a.clone().concat(b.as_str()))),
                ),
                _ => Operation::Done(
                    Err(
                        RuntimeError::new(
                            RuntimeErrorKind::OperandsNotNumbersOrStrings,
                            operator.clone(),
                        ),
                    ),
                ),
            }
        },
        TokenType::Greater => {
            match (left, right) {
                (Object::Num(a), Object::Num(b)) => Operation::Done(Ok(Object::Boolean(less(*b, *a)))),
                _ => numbers_expected(operator),
            }
        },
        TokenType::GreaterEqual => {
            match (left, right) {
                (Object::Num(a), Object::Num(b)) => Operation::Done(
                    Ok(Object::Boolean(less_equal(*b, *a))),
                ),
                _ => numbers_expected(operator),
            }
        },
        TokenType::Less => {
            match (left, right) {
                (Object::Num(a), Object::Num(b)) => Operation::Done(Ok(Object::Boolean(less(*a, *b)))),
                _ => numbers_expected(operator),
            }
        },
        TokenType::LessEqual => {
            match (left, right) {
                (Object::Num(a), Object::Num(b)) => Operation::Done(
                    Ok(Object::Boolean(less_equal(*a, *b))),
                ),
                _ => numbers_expected(operator),
            }
        },
        TokenType::Equals => Operation::Done(Ok(Object::Boolean(is_equal(left, right)))),
        TokenType::BangEqual => Operation::Done(Ok(Object::Boolean(!is_equal(left, right)))),
        _ => vstd::pervasive::unreached(),
    }
}

/// `rendered` is what is to be shown of the result `result` of an evaluation:
/// the text of the value, where `show` gives the text of a number, or else
/// the report of the runtime error.
pub open spec fn renders<S: Fn(u64) -> String>(
    show: S,
    result: Result<Object, RuntimeError>,
    rendered: Result<String, String>,
) -> bool {
    match result {
        Ok(value) => rendered matches Ok(text) && shown(show, value@, text@),
        Err(error) => rendered matches Err(text) && text@ == runtime_error_text(
            error.token,
            runtime_message(error.kind),
        ),
    }
}

/// `rendered` is what is to be shown of an evaluation of `expr`.
pub open spec fn interprets<A: Fn(ArithOp, u64, u64) -> u64, S: Fn(u64) -> String>(
    arith: A,
    show: S,
    expr: Expr,
    rendered: Result<String, String>,
) -> bool {
    exists|result: Result<Object, RuntimeError>|
        evaluates(arith, expr, outcome_of(result)) && #[trigger] renders(show, result, rendered)
}

/// A tree-walking evaluator.
///
/// `arith` performs the rounding operations: it takes the operation and the
/// encodings of its two operands, and returns the encoding of the result.
pub struct Interpreter<A> {
    pub arith: A,
}

impl<A: Fn(ArithOp, u64, u64) -> u64> Interpreter<A> {
    pub fn new(arith: A) -> (r: Self)
        ensures
            r.arith == arith,
    {
        Interpreter { arith }
    }

    /// Evaluates `expr`.
    pub fn evaluate(&self, expr: &Expr) -> (r: Result<Object, RuntimeError>)
        requires
            rounds(self.arith),
            evaluable(*expr),
        ensures
            evaluates(self.arith, *expr, outcome_of(r)),
        decreases expr, 0nat,
    {
        match expr {
            Expr::Binary(expr) => self.visit_binary(expr),
            Expr::Grouping(expr) => self.visit_grouping(expr),
            Expr::Unary(expr) => self.visit_unary(expr),
            Expr::Literal(expr) => self.visit_literal(expr),
        }
    }

    /// Evaluates `expr` and renders what is to be shown of it: the text of
    /// its value, where `show` gives the text of a number, or else the report
    /// of the runtime error.
    pub fn interpret<S: Fn(u64) -> String>(&self, expr: Expr, show: &S) -> (r: Result<
        String,
        String,
    >)
        requires
            rounds(self.arith),
            evaluable(expr),
            forall|bits: u64| call_requires(*show, (bits,)),
        ensures
            interprets(self.arith, *show, expr, r),
    {
        let result = self.evaluate(&expr);
        let rendered = match &result {
            Ok(value) => Ok(value.to_text(show)),
            Err(error) => Err(error.report()),
        };
        assert(renders(*show, result, rendered));
        rendered
    }
}

impl<A: Fn(ArithOp, u64, u64) -> u64> ExprVisitor<Result<Object, RuntimeError>> for Interpreter<
    A,
> {
    open spec fn accepts_binary(&self, binary: &BinaryExpr) -> bool {
        rounds(self.arith) && evaluable(Expr::Binary(*binary))
    }

    open spec fn yields_binary(
        &self,
        binary: &BinaryExpr,
        result: Result<Object, RuntimeError>,
    ) -> bool {
        evaluates(self.arith, Expr::Binary(*binary), outcome_of(result))
    }

    open spec fn accepts_grouping(&self, grouping: &GroupingExpr) -> bool {
        rounds(self.arith) && evaluable(Expr::Grouping(*grouping))
    }

    open spec fn yields_grouping(
        &self,
        grouping: &GroupingExpr,
        result: Result<Object, RuntimeError>,
    ) -> bool {
        evaluates(self.arith, Expr::Grouping(*grouping), outcome_of(result))
    }

    open spec fn accepts_unary(&self, unary: &UnaryExpr) -> bool {
        rounds(self.arith) && evaluable(Expr::Unary(*unary))
    }

    open spec fn yields_unary(&self, unary: &UnaryExpr, result: Result<Object, RuntimeError>)
        -> bool {
        evaluates(self.arith, Expr::Unary(*unary), outcome_of(result))
    }

    open spec fn accepts_literal(&self, literal: &LiteralExpr) -> bool {
        true
    }

    open spec fn yields_literal(
        &self,
        literal: &LiteralExpr,
        result: Result<Object, RuntimeError>,
    ) -> bool {
        evaluates(self.arith, Expr::Literal(*literal), outcome_of(result))
    }

    fn visit_binary(&self, binary: &BinaryExpr) -> (result: Result<Object, RuntimeError>)
        decreases binary, 1nat,
    {
        let left = match self.evaluate(&binary.left) {
            Ok(value) => value,
            Err(error) => {
                proof {
                    lemma_binary_evaluates(
                        self.arith,
                        *binary,
                        Err(error),
                        Err(error),
                        Err(error),
                    );
                }
                return Err(error);
            },
        };
        let right = match self.evaluate(&binary.right) {
            Ok(value) => value,
            Err(error) => {
                proof {
                    lemma_binary_evaluates(
                        self.arith,
                        *binary,
                        Ok(left@),
                        Err(error),
                        Err(error),
                    );
                }
                return Err(error);
            },
        };
        let result = match apply_binary(&binary.operator, &left, &right) {
            Operation::Done(result) => result,
            Operation::Compute(op, a, b) => Ok(Object::Num((self.arith)(op, a, b))),
        };
        proof {
            lemma_binary_evaluates(
                self.arith,
                *binary,
                Ok(left@),
                Ok(right@),
                outcome_of(result),
            );
        }
        result
    }

    fn visit_grouping(&self, grouping: &GroupingExpr) -> (result: Result<Object, RuntimeError>)
        decreases grouping, 1nat,
    {
        self.evaluate(&grouping.expr)
    }

    fn visit_unary(&self, unary: &UnaryExpr) -> (result: Result<Object, RuntimeError>)
        decreases unary, 1nat,
    {
        let right = match self.evaluate(&unary.right) {
            Ok(value) => value,
            Err(error) => {
                proof {
                    lemma_unary_evaluates(self.arith, *unary, Err(error), Err(error));
                }
                return Err(error);
            },
        };
        let result = apply_unary(&unary.operator, &right);
        proof {
            lemma_unary_evaluates(self.arith, *unary, Ok(right@), outcome_of(result));
        }
        result
    }

    fn visit_literal(&self, literal: &LiteralExpr) -> (result: Result<Object, RuntimeError>)
    {
        Ok(literal.value.clone())
    }
}

} // verus!
