//! The grammar of expressions: what the parser parses, and that it is the
//! reading of the tokens by precedence and from the left.

use vstd::prelude::*;
use crate::expr::{BinaryExpr, Expr, GroupingExpr, LiteralExpr, UnaryExpr};
use crate::token::{Object, Token};
use crate::semantics::{evaluable, prefix_operator};
use crate::token_type::TokenType;

verus! {

/// The two syntax errors.
#[derive(Debug, Clone, Copy, PartialEq, Eq, Structural)]
pub enum SyntaxErrorKind {
    /// No primary expression starts at the token.
    ExpectExpression,
    /// A group was opened and the token does not close it.
    ExpectRightParen,
}

/// The precedence level of `==` and `!=`, the loosest.
pub const EQUALITY: u8 = 0;

/// The precedence level of `<`, `<=`, `>` and `>=`.
pub const COMPARISON: u8 = 1;

/// The precedence level of `-` and `+`.
pub const TERM: u8 = 2;

/// The precedence level of `/` and `*`.
pub const FACTOR: u8 = 3;

/// The precedence level of `^`, the tightest of the infix operators.
pub const POWER: u8 = 4;

/// The level of the prefix operators, above every infix level.
pub const UNARY: u8 = 5;

/// `ttype` is an infix operator of precedence level `level`.
pub open spec fn level_operator(level: u8, ttype: TokenType) -> bool {
    if level == EQUALITY {
        ttype == TokenType::BangEqual || ttype == TokenType::Equals
    } else if level == COMPARISON {
        ttype == TokenType::Less || ttype == TokenType::Greater || ttype == TokenType::LessEqual
            || ttype == TokenType::GreaterEqual
    } else if level == TERM {
        ttype == TokenType::Minus || ttype == TokenType::Plus
    } else if level == FACTOR {
        ttype == TokenType::Slash || ttype == TokenType::Star
    } else if level == POWER {
        ttype == TokenType::Exponent
    } else {
        false
    }
}

/// The kind of the token at `pos`; past the last token, the end marker.
pub open spec fn kind_at(tokens: Seq<Token>, pos: nat) -> TokenType {
    if pos < tokens.len() {
        tokens[pos as int].ttype
    } else {
        TokenType::Eof
    }
}

/// The number of tokens from `pos` on.
pub open spec fn remaining(tokens: Seq<Token>, pos: nat) -> nat {
    if pos <= tokens.len() {
        (tokens.len() - pos) as nat
    } else {
        0
    }
}

/// An expression and the number of tokens that it spans.
pub struct Parsed {
    pub expr: Expr,
    pub len: nat,
}

/// A syntax error and the index of the token at which it was found.
pub struct SyntaxError {
    pub kind: SyntaxErrorKind,
    pub at: nat,
}

/// `result`, with `by` more tokens counted before a parsed expression.
pub open spec fn after(by: nat, result: Result<Parsed, SyntaxError>) -> Result<
    Parsed,
    SyntaxError,
> {
    match result {
        Ok(parsed) => Ok(Parsed { expr: parsed.expr, len: by + parsed.len }),
        Err(error) => Err(error),
    }
}

/// The infix expression with the given parts.
pub open spec fn binary_of(left: Expr, operator: Token, right: Expr) -> Expr {
    Expr::Binary(BinaryExpr { left: Box::new(left), operator, right: Box::new(right) })
}

/// The prefix expression with the given parts.
pub open spec fn unary_of(operator: Token, right: Expr) -> Expr {
    Expr::Unary(UnaryExpr { operator, right: Box::new(right) })
}

/// The group around `inner`.
pub open spec fn grouping_of(inner: Expr) -> Expr {
    Expr::Grouping(GroupingExpr { expr: Box::new(inner) })
}

/// The literal expression of `value`.
pub open spec fn literal_of(value: Object) -> Expr {
    Expr::Literal(LiteralExpr { value })
}

/// `primary -> NUMBER | STRING | 'true' | 'false' | 'nil' | '(' expression ')'`
///
/// The primary expression that starts at `pos`, or the syntax error: a token
/// that starts none, or a group that is not closed.
pub open spec fn parse_primary(tokens: Seq<Token>, pos: nat) -> Result<Parsed, SyntaxError>
    decreases remaining(tokens, pos), 0nat,
{
    let ttype = kind_at(tokens, pos);
    if ttype == TokenType::False {
        Ok(Parsed { expr: literal_of(Object::Boolean(false)), len: 1 })
    } else if ttype == TokenType::True {
        Ok(Parsed { expr: literal_of(Object::Boolean(true)), len: 1 })
    } else if ttype == TokenType::Nil {
        Ok(Parsed { expr: literal_of(Object::Nil), len: 1 })
    } else if ttype == TokenType::Number || ttype == TokenType::String {
        Ok(Parsed { expr: literal_of(tokens[pos as int].literal->0), len: 1 })
    } else if ttype == TokenType::LeftParen {
        match parse_binary(tokens, pos + 1, EQUALITY) {
            Ok(inner) => {
                let close = pos + 1 + inner.len;
                if kind_at(tokens, close) == TokenType::RightParen {
                    Ok(Parsed { expr: grouping_of(inner.expr), len: inner.len + 2 })
                } else {
                    Err(SyntaxError { kind: SyntaxErrorKind::ExpectRightParen, at: close })
                }
            },
            Err(error) => Err(error),
        }
    } else {
        Err(SyntaxError { kind: SyntaxErrorKind::ExpectExpression, at: pos })
    }
}

/// `unary -> ('!' | '-') unary | primary`
pub open spec fn parse_unary(tokens: Seq<Token>, pos: nat) -> Result<Parsed, SyntaxError>
    decreases remaining(tokens, pos), 1nat,
{
    if prefix_operator(kind_at(tokens, pos)) {
        match parse_unary(tokens, pos + 1) {
            Ok(right) => Ok(
                Parsed { expr: unary_of(tokens[pos as int], right.expr), len: 1 + right.len },
            ),
            Err(error) => Err(error),
        }
    } else {
        parse_primary(tokens, pos)
    }
}

/// The place of `parse_binary` at `level` in the order of the productions.
pub open spec fn binary_rank(level: u8) -> nat {
    if level >= UNARY {
        2
    } else {
        (2 * (UNARY - level) + 2) as nat
    }
}

/// The place of `parse_operators` at `level` in the order of the productions.
pub open spec fn operators_rank(level: u8) -> nat {
    if level >= UNARY {
        0
    } else {
        (2 * (UNARY - level) + 1) as nat
    }
}

/// The production of one infix level: an operand of the next level, then any
/// number of this level's operators, each with an operand of the next level,
/// folded from the left. Above the infix levels it is `unary`.
pub open spec fn parse_binary(tokens: Seq<Token>, pos: nat, level: u8) -> Result<
    Parsed,
    SyntaxError,
>
    decreases remaining(tokens, pos), binary_rank(level),
{
    if level >= UNARY {
        parse_unary(tokens, pos)
    } else {
        match parse_binary(tokens, pos, (level + 1) as u8) {
            Ok(first) => after(
                first.len,
                parse_operators(tokens, pos + first.len, level, first.expr),
            ),
            Err(error) => Err(error),
        }
    }
}

/// What follows the operand `left` of an infix level: while an operator of
/// `level` stands at `pos`, it and the operand after it are folded around
/// what was read so far.
pub open spec fn parse_operators(tokens: Seq<Token>, pos: nat, level: u8, left: Expr) -> Result<
    Parsed,
    SyntaxError,
>
    decreases remaining(tokens, pos), operators_rank(level),
{
    if level < UNARY && level_operator(level, kind_at(tokens, pos)) {
        match parse_binary(tokens, pos + 1, (level + 1) as u8) {
            Ok(right) => after(
                1 + right.len,
                parse_operators(
                    tokens,
                    pos + 1 + right.len,
                    level,
                    binary_of(left, tokens[pos as int], right.expr),
                ),
            ),
            Err(error) => Err(error),
        }
    } else {
        Ok(Parsed { expr: left, len: 0 })
    }
}

/// `expression -> equality`
pub open spec fn parse_expression(tokens: Seq<Token>, pos: nat) -> Result<Parsed, SyntaxError> {
    parse_binary(tokens, pos, EQUALITY)
}

/// `ttype` starts a statement.
pub open spec fn statement_start(ttype: TokenType) -> bool {
    ttype == TokenType::If || ttype == TokenType::Class || ttype == TokenType::Var || ttype
        == TokenType::Fun || ttype == TokenType::For || ttype == TokenType::While || ttype
        == TokenType::Print || ttype == TokenType::Return
}

/// Where the discarding of tokens stops that has come to `pos`: at the end
/// marker, after a semicolon, or before a token that starts a statement.
pub open spec fn boundary_from(tokens: Seq<Token>, pos: nat) -> nat
    decreases remaining(tokens, pos),
{
    if kind_at(tokens, pos) == TokenType::Eof {
        pos
    } else if pos > 0 && kind_at(tokens, (pos - 1) as nat) == TokenType::SemiColon {
        pos
    } else if statement_start(kind_at(tokens, pos)) {
        pos
    } else {
        boundary_from(tokens, pos + 1)
    }
}

/// Where synchronization from `pos` ends: the token at `pos` is discarded
/// unless it is the end marker, then tokens are discarded up to the next
/// boundary.
pub open spec fn synchronized(tokens: Seq<Token>, pos: nat) -> nat {
    if kind_at(tokens, pos) == TokenType::Eof {
        pos
    } else {
        boundary_from(tokens, pos + 1)
    }
}

/// Tokens that a parser can read: the end marker closes them, and every
/// number and string token carries a literal.
pub open spec fn well_formed(tokens: Seq<Token>) -> bool {
    &&& tokens.len() > 0
    &&& tokens.last().ttype == TokenType::Eof
    &&& forall|i: int|
        0 <= i < tokens.len() && ((#[trigger] tokens[i]).ttype == TokenType::Number || tokens[i].ttype
            == TokenType::String) ==> tokens[i].literal is Some
}

/// The precedence level of the infix operator `ttype`; `UNARY` for every
/// other kind of token.
pub open spec fn level_of(ttype: TokenType) -> u8 {
    if level_operator(EQUALITY, ttype) {
        EQUALITY
    } else if level_operator(COMPARISON, ttype) {
        COMPARISON
    } else if level_operator(TERM, ttype) {
        TERM
    } else if level_operator(FACTOR, ttype) {
        FACTOR
    } else if level_operator(POWER, ttype) {
        POWER
    } else {
        UNARY
    }
}

/// The number of tokens that `expr` is written with.
pub open spec fn width(expr: Expr) -> nat
    decreases expr,
{
    match expr {
        Expr::Binary(binary) => width(*binary.left) + 1 + width(*binary.right),
        Expr::Grouping(grouping) => width(*grouping.expr) + 2,
        Expr::Unary(unary) => 1 + width(*unary.right),
        Expr::Literal(_) => 1,
    }
}

/// `value` is the value of the literal token `token`.
pub open spec fn literal_value(token: Token, value: Object) -> bool {
    if token.ttype == TokenType::False {
        value == Object::Boolean(false)
    } else if token.ttype == TokenType::True {
        value == Object::Boolean(true)
    } else if token.ttype == TokenType::Nil {
        value == Object::Nil
    } else if token.ttype == TokenType::Number || token.ttype == TokenType::String {
        value == token.literal->0
    } else {
        false
    }
}

/// `expr` is written by the tokens from `from` on, in order: a literal by its
/// token, a group by its inner expression between parentheses, a prefix
/// operator before its operand and an infix operator between its operands.
pub open spec fn spans(expr: Expr, tokens: Seq<Token>, from: nat) -> bool
    decreases expr,
{
    match expr {
        Expr::Literal(literal) => from < tokens.len() && literal_value(
            tokens[from as int],
            literal.value,
        ),
        Expr::Grouping(grouping) => {
            &&& kind_at(tokens, from) == TokenType::LeftParen
            &&& spans(*grouping.expr, tokens, from + 1)
            &&& kind_at(tokens, from + 1 + width(*grouping.expr)) == TokenType::RightParen
        },
        Expr::Unary(unary) => {
            &&& from < tokens.len()
            &&& tokens[from as int] == unary.operator
            &&& spans(*unary.right, tokens, from + 1)
        },
        Expr::Binary(binary) => {
            let at = from + width(*binary.left);
            &&& spans(*binary.left, tokens, from)
            &&& at < tokens.len()
            &&& tokens[at as int] == binary.operator
            &&& spans(*binary.right, tokens, at + 1)
        },
    }
}

/// `expr` can stand where an operand of precedence level `level` is read.
///
/// An infix operator stands at its own level and at every looser one; its
/// left operand can stand at the operator's level and its right operand only
/// at the next tighter one, so that operators of one level group from the
/// left and tighter operators group first. A prefix operator stands at every
/// level up to `UNARY`, a literal and a group at every level.
pub open spec fn binds(expr: Expr, level: u8) -> bool
    decreases expr,
{
    match expr {
        Expr::Binary(binary) => {
            let own = level_of(binary.operator.ttype);
            &&& level <= own < UNARY
            &&& binds(*binary.left, own)
            &&& binds(*binary.right, (own + 1) as u8)
        },
        Expr::Unary(unary) => {
            &&& level <= UNARY
            &&& prefix_operator(unary.operator.ttype)
            &&& binds(*unary.right, UNARY)
        },
        Expr::Grouping(grouping) => binds(*grouping.expr, EQUALITY),
        Expr::Literal(_) => true,
    }
}

/// No infix operator of level `level` or tighter stands at `at`.
pub open spec fn no_operator_at(tokens: Seq<Token>, at: nat, level: u8) -> bool {
    level_of(kind_at(tokens, at)) < level || level_of(kind_at(tokens, at)) == UNARY
}

/// `parsed` is a reading of the tokens from `pos` on at precedence level
/// `level`: the expression is written by exactly the tokens it spans, it
/// groups by precedence and from the left, and no operator follows that it
/// could have taken in.
pub open spec fn reads(parsed: Parsed, tokens: Seq<Token>, pos: nat, level: u8) -> bool {
    &&& parsed.len == width(parsed.expr)
    &&& spans(parsed.expr, tokens, pos)
    &&& binds(parsed.expr, level)
    &&& no_operator_at(tokens, pos + parsed.len, level)
}

/// An expression that can stand at one level can stand at every looser one.
pub proof fn lemma_binds_looser(expr: Expr, level: u8, looser: u8)
    requires
        binds(expr, level),
        looser <= level,
    ensures
        binds(expr, looser),
{
}

/// What `parse_primary` parses is a reading of the tokens.
pub proof fn lemma_primary_reads(tokens: Seq<Token>, pos: nat)
    ensures
        parse_primary(tokens, pos) matches Ok(parsed) ==> reads(parsed, tokens, pos, UNARY),
    decreases remaining(tokens, pos), 0nat,
{
    if kind_at(tokens, pos) == TokenType::LeftParen {
        lemma_binary_reads(tokens, pos + 1, EQUALITY);
    }
}

/// What `parse_unary` parses is a reading of the tokens.
pub proof fn lemma_unary_reads(tokens: Seq<Token>, pos: nat)
    ensures
        parse_unary(tokens, pos) matches Ok(parsed) ==> reads(parsed, tokens, pos, UNARY),
    decreases remaining(tokens, pos), 1nat,
{
    if prefix_operator(kind_at(tokens, pos)) {
        lemma_unary_reads(tokens, pos + 1);
    } else {
        lemma_primary_reads(tokens, pos);
    }
}

/// Precedence and associativity: what `parse_binary` parses at a level is a
/// reading of the tokens at that level.
///
/// The parsed expression is written by exactly the tokens from `pos` on that
/// it spans; every operator in it has operands that bind at least as tightly
/// as itself on the left and more tightly on the right, so `^` groups before
/// `*` and `/`, those before `+` and `-`, those before the comparisons, those
/// before `==` and `!=`, and operators of one level group from the left; and
/// the token after the expression is no operator that it could have taken in.
pub proof fn lemma_binary_reads(tokens: Seq<Token>, pos: nat, level: u8)
    ensures
        parse_binary(tokens, pos, level) matches Ok(parsed) ==> reads(
            parsed,
            tokens,
            pos,
            if level <= UNARY {
                level
            } else {
                UNARY
            },
        ),
    decreases remaining(tokens, pos), binary_rank(level),
{
    if level >= UNARY {
        lemma_unary_reads(tokens, pos);
    } else {
        lemma_binary_reads(tokens, pos, (level + 1) as u8);
        match parse_binary(tokens, pos, (level + 1) as u8) {
            Ok(first) => {
                lemma_binds_looser(first.expr, (level + 1) as u8, level);
                lemma_operators_read(tokens, pos, pos + first.len, level, first.expr);
            },
            Err(_) => {},
        }
    }
}

/// What `parse_operators` folds around a reading is a reading: where `left`
/// is written by the tokens from `start` up to `pos` and can stand at
/// `level`, so is and does the expression that the operators from `pos` on
/// are folded into.
pub proof fn lemma_operators_read(
    tokens: Seq<Token>,
    start: nat,
    pos: nat,
    level: u8,
    left: Expr,
)
    requires
        level < UNARY,
        start + width(left) == pos,
        spans(left, tokens, start),
        binds(left, level),
        no_operator_at(tokens, pos, (level + 1) as u8),
    ensures
        parse_operators(tokens, pos, level, left) matches Ok(parsed) ==> reads(
            Parsed { expr: parsed.expr, len: width(left) + parsed.len },
            tokens,
            start,
            level,
        ),
    decreases remaining(tokens, pos), operators_rank(level),
{
    if level_operator(level, kind_at(tokens, pos)) {
        lemma_binary_reads(tokens, pos + 1, (level + 1) as u8);
        match parse_binary(tokens, pos + 1, (level + 1) as u8) {
            Ok(right) => {
                let folded = binary_of(left, tokens[pos as int], right.expr);
                lemma_operators_read(tokens, start, pos + 1 + right.len, level, folded);
            },
            Err(_) => {},
        }
    }
}

/// Precedence and associativity of a parsed expression: it is a reading of
/// the tokens at the loosest level.
pub proof fn parse_groups_by_precedence(tokens: Seq<Token>, pos: nat)
    ensures
        parse_expression(tokens, pos) matches Ok(parsed) ==> reads(parsed, tokens, pos, EQUALITY),
{
    lemma_binary_reads(tokens, pos, EQUALITY);
}

/// The discarding of tokens never moves back, and it stops within the tokens
/// or just after them.
pub proof fn lemma_boundary_bounds(tokens: Seq<Token>, pos: nat)
    ensures
        pos <= boundary_from(tokens, pos),
        pos <= tokens.len() ==> boundary_from(tokens, pos) <= tokens.len(),
    decreases remaining(tokens, pos),
{
    if kind_at(tokens, pos) != TokenType::Eof && !(pos > 0 && kind_at(tokens, (pos - 1) as nat)
        == TokenType::SemiColon) && !statement_start(kind_at(tokens, pos)) {
        lemma_boundary_bounds(tokens, pos + 1);
    }
}

/// Synchronization always advances past at least one token: from every token
/// but the end marker it ends after that token, and within the tokens or just
/// after them.
pub proof fn synchronize_advances(tokens: Seq<Token>, pos: nat)
    requires
        kind_at(tokens, pos) != TokenType::Eof,
    ensures
        pos < synchronized(tokens, pos) <= tokens.len(),
{
    lemma_boundary_bounds(tokens, pos + 1);
}

/// `after` adds up: counting `a` tokens before a result that counts `b`
/// before another is counting `a + b` before that one.
pub proof fn lemma_after_adds(a: nat, b: nat, result: Result<Parsed, SyntaxError>)
    ensures
        after(a, after(b, result)) == after(a + b, result),
{
}

/// The parser reaches every left operand: where `left` is written by the
/// tokens from `pos` on, can stand at the infix level `own`, and is followed
/// by an operator of that level, parsing at that level from `pos` comes to
/// fold the operators after `left` around `left`.
pub proof fn lemma_operand_reached(tokens: Seq<Token>, pos: nat, own: u8, left: Expr)
    requires
        own < UNARY,
        spans(left, tokens, pos),
        binds(left, own),
        level_operator(own, kind_at(tokens, pos + width(left))),
    ensures
        parse_binary(tokens, pos, own) == after(
            width(left),
            parse_operators(tokens, pos + width(left), own, left),
        ),
    decreases left, 2nat, 0nat,
{
    let tighter = (own + 1) as u8;
    match left {
        Expr::Binary(binary) if level_of(binary.operator.ttype) == own => {
            let first = *binary.left;
            let second = *binary.right;
            let at = pos + width(first);
            lemma_operand_reached(tokens, pos, own, first);
            lemma_reading_parsed(tokens, at + 1, tighter, second);
            lemma_after_adds(
                width(first),
                1 + width(second),
                parse_operators(tokens, pos + width(left), own, left),
            );
        },
        _ => {
            lemma_reading_parsed(tokens, pos, tighter, left);
        },
    }
}

/// Every reading is what the parser parses: where `expr` is written by the
/// tokens from `pos` on, groups by precedence and from the left so that it
/// can stand at `level`, and is followed by no operator that it could have
/// taken in, parsing at `level` from `pos` gives `expr`.
pub proof fn lemma_reading_parsed(tokens: Seq<Token>, pos: nat, level: u8, expr: Expr)
    requires
        level <= UNARY,
        spans(expr, tokens, pos),
        binds(expr, level),
        no_operator_at(tokens, pos + width(expr), level),
    ensures
        parse_binary(tokens, pos, level) == Ok::<Parsed, SyntaxError>(
            Parsed { expr, len: width(expr) },
        ),
    decreases expr, 1nat, UNARY - level,
{
    let own = match expr {
        Expr::Binary(binary) => level_of(binary.operator.ttype),
        _ => UNARY,
    };
    let goal = Ok::<Parsed, SyntaxError>(Parsed { expr, len: width(expr) });
    if level < own {
        lemma_reading_parsed(tokens, pos, (level + 1) as u8, expr);
        assert(parse_operators(tokens, pos + width(expr), level, expr) == Ok::<
            Parsed,
            SyntaxError,
        >(Parsed { expr, len: 0 }));
    } else {
        match expr {
            Expr::Binary(binary) => {
                let left = *binary.left;
                let right = *binary.right;
                let at = pos + width(left);
                lemma_operand_reached(tokens, pos, own, left);
                lemma_reading_parsed(tokens, at + 1, (own + 1) as u8, right);
                lemma_after_adds(
                    width(left),
                    1 + width(right),
                    parse_operators(tokens, pos + width(expr), own, expr),
                );
            },
            Expr::Unary(unary) => {
                lemma_reading_parsed(tokens, pos + 1, UNARY, *unary.right);
            },
            Expr::Grouping(grouping) => {
                lemma_reading_parsed(tokens, pos + 1, EQUALITY, *grouping.expr);
            },
            Expr::Literal(literal) => {
                assert(parse_primary(tokens, pos) == goal);
                assert(parse_unary(tokens, pos) == goal);
            },
        }
    }
}

/// The parser's expression is the one reading of the tokens: two readings of
/// the tokens from one position on at one level are the same.
pub proof fn reading_is_unique(
    tokens: Seq<Token>,
    pos: nat,
    level: u8,
    one: Parsed,
    other: Parsed,
)
    requires
        level <= UNARY,
        reads(one, tokens, pos, level),
        reads(other, tokens, pos, level),
    ensures
        one == other,
{
    lemma_reading_parsed(tokens, pos, level, one.expr);
    lemma_reading_parsed(tokens, pos, level, other.expr);
}

/// An expression is parsed exactly where the tokens have a reading, and it is
/// that reading: the parser gives `parsed` if and only if `parsed` is a
/// reading of the tokens from `pos` on, and a syntax error where there is
/// none.
pub proof fn parse_is_the_reading(tokens: Seq<Token>, pos: nat, parsed: Parsed)
    ensures
        parse_expression(tokens, pos) == Ok::<Parsed, SyntaxError>(parsed) <==> reads(
            parsed,
            tokens,
            pos,
            EQUALITY,
        ),
{
    lemma_binary_reads(tokens, pos, EQUALITY);
    if reads(parsed, tokens, pos, EQUALITY) {
        lemma_reading_parsed(tokens, pos, EQUALITY, parsed.expr);
    }
}

/// An expression that can stand at some level can be evaluated: its
/// operators are infix operators between two operands and prefix operators
/// before one.
pub proof fn lemma_binds_evaluable(expr: Expr, level: u8)
    requires
        binds(expr, level),
    ensures
        evaluable(expr),
    decreases expr,
{
    match expr {
        Expr::Binary(binary) => {
            let own = level_of(binary.operator.ttype);
            lemma_binds_evaluable(*binary.left, own);
            lemma_binds_evaluable(*binary.right, (own + 1) as u8);
        },
        Expr::Grouping(grouping) => {
            lemma_binds_evaluable(*grouping.expr, EQUALITY);
        },
        Expr::Unary(unary) => {
            lemma_binds_evaluable(*unary.right, UNARY);
        },
        Expr::Literal(_) => {},
    }
}

/// Every parsed expression can be evaluated.
pub proof fn parsed_is_evaluable(tokens: Seq<Token>, pos: nat)
    ensures
        parse_expression(tokens, pos) matches Ok(parsed) ==> evaluable(parsed.expr),
{
    lemma_binary_reads(tokens, pos, EQUALITY);
    match parse_expression(tokens, pos) {
        Ok(parsed) => {
            lemma_binds_evaluable(parsed.expr, EQUALITY);
        },
        Err(_) => {},
    }
}

} // verus!
