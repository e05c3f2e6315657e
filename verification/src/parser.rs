//! The recursive-descent parser.

use vstd::prelude::*;
use vstd::string::StringExecFns;
use crate::error::{parse_error_text, Lox};
use crate::expr::{BinaryExpr, Expr, GroupingExpr, LiteralExpr, UnaryExpr};
use crate::grammar::{
    after,
    binary_rank,
    boundary_from,
    kind_at,
    level_operator,
    parse_binary,
    parse_expression,
    parse_operators,
    parse_primary,
    parse_unary,
    parsed_is_evaluable,
    remaining,
    synchronized,
    well_formed,
    Parsed,
    SyntaxError,
    SyntaxErrorKind,
    COMPARISON,
    EQUALITY,
    FACTOR,
    POWER,
    TERM,
    UNARY,
};
use crate::semantics::evaluable;
use crate::token::{Object, Token};
use crate::token_type::TokenType;

verus! {

/// A syntax error: its kind and the token at which parsing stopped.
#[derive(Debug, PartialEq)]
pub struct LoxParseError {
    pub kind: SyntaxErrorKind,
    pub token: Token,
}

impl Clone for LoxParseError {
    fn clone(&self) -> (r: Self)
        ensures
            r == *self,
    {
        LoxParseError { kind: self.kind, token: self.token.clone() }
    }
}

/// The message of a syntax error of kind `kind`.
pub open spec fn syntax_message(kind: SyntaxErrorKind) -> Seq<char> {
    match kind {
        SyntaxErrorKind::ExpectExpression => "expect expression"@,
        SyntaxErrorKind::ExpectRightParen => "Expect '(' after expression."@,
    }
}

impl LoxParseError {
    /// The message of this error.
    pub fn message(&self) -> (r: &'static str)
        ensures
            r@ == syntax_message(self.kind),
    {
        match self.kind {
            SyntaxErrorKind::ExpectExpression => "expect expression",
            SyntaxErrorKind::ExpectRightParen => "Expect '(' after expression.",
        }
    }

    /// The report of this error: its line, its token and its message.
    pub fn report(&self) -> (r: String)
        ensures
            r@ == parse_error_text(self.token, syntax_message(self.kind)),
    {
        Lox::parse_error(&self.token, String::from_str(self.message()))
    }
}

/// A recursive-descent parser over a token sequence.
pub struct Parser {
    tokens: Vec<Token>,
    current: usize,
    errors: Vec<LoxParseError>,
}

impl Parser {
    /// The tokens that are parsed.
    pub closed spec fn tokens(&self) -> Seq<Token> {
        self.tokens@
    }

    /// The index of the token that is read next.
    pub closed spec fn position(&self) -> nat {
        self.current as nat
    }

    /// The syntax errors recorded so far.
    pub closed spec fn reported(&self) -> Seq<LoxParseError> {
        self.errors@
    }

    /// The tokens are well formed and the read position is at one of them.
    pub closed spec fn wf(&self) -> bool {
        &&& well_formed(self.tokens@)
        &&& self.current < self.tokens@.len()
    }

    /// `self` differs from `before` in its read position at most.
    spec fn moved_from(&self, before: &Self) -> bool {
        &&& self.wf()
        &&& self.tokens == before.tokens
        &&& self.errors == before.errors
    }

    /// `self` has come from `before` by a production whose outcome is
    /// `expected`, and `result` is what the production returned: the parsed
    /// expression, with the read position after it, or the error with the
    /// token that it was found at, with the read position at that token.
    spec fn parsed_from(
        &self,
        before: &Self,
        result: Result<Expr, LoxParseError>,
        expected: Result<Parsed, SyntaxError>,
    ) -> bool {
        &&& self.moved_from(before)
        &&& match expected {
            Ok(parsed) => {
                &&& result == Ok::<Expr, LoxParseError>(parsed.expr)
                &&& self.current == before.current + parsed.len
            },
            Err(error) => {
                &&& error.at < self.tokens@.len()
                &&& result == Err::<Expr, LoxParseError>(
                    LoxParseError { kind: error.kind, token: self.tokens@[error.at as int] },
                )
                &&& self.current == error.at
            },
        }
    }

    /// A parser at the first of `tokens`.
    pub fn new(tokens: Vec<Token>) -> (r: Parser)
        requires
            well_formed(tokens@),
        ensures
            r.wf(),
            r.tokens() == tokens@,
            r.position() == 0,
            r.reported() == Seq::<LoxParseError>::empty(),
    {
        Parser { tokens, current: 0, errors: Vec::new() }
    }

    /// Parses one expression from the read position on.
    ///
    /// Returns the expression and leaves the read position after it; or
    /// returns `None`, records the syntax error and leaves the read position
    /// at the token that the error was found at.
    pub fn parse(&mut self) -> (r: Option<Expr>)
        requires
            old(self).wf(),
        ensures
            final(self).wf(),
            final(self).tokens() == old(self).tokens(),
            match parse_expression(old(self).tokens(), old(self).position()) {
                Ok(parsed) => {
                    &&& r == Some(parsed.expr)
                    &&& evaluable(parsed.expr)
                    &&& final(self).position() == old(self).position() + parsed.len
                    &&& final(self).reported() == old(self).reported()
                },
                Err(error) => {
                    &&& r is None
                    &&& error.at < old(self).tokens().len()
                    &&& final(self).position() == error.at
                    &&& final(self).reported() == old(self).reported().push(
                        LoxParseError {
                            kind: error.kind,
                            token: old(self).tokens()[error.at as int],
                        },
                    )
                },
            },
    {
        proof {
            parsed_is_evaluable(self.tokens@, self.current as nat);
        }
        match self.expression() {
            Ok(expr) => Some(expr),
            Err(error) => {
                self.errors.push(error);
                None
            },
        }
    }

    /// The syntax errors recorded so far, oldest first.
    pub fn errors(&self) -> (r: &Vec<LoxParseError>)
        ensures
            r@ == self.reported(),
    {
        &self.errors
    }

    fn expression(&mut self) -> (r: Result<Expr, LoxParseError>)
        requires
            old(self).wf(),
        ensures
            final(self).parsed_from(
                old(self),
                r,
                parse_expression(old(self).tokens@, old(self).current as nat),
            ),
        decreases remaining(old(self).tokens@, old(self).current as nat), binary_rank(EQUALITY) + 1,
    {
        self.binary(EQUALITY)
    }

    /// The production of the infix level `level`: `equality`, `comparison`,
    /// `term`, `factor` or `power`; above them, `unary`.
    fn binary(&mut self, level: u8) -> (r: Result<Expr, LoxParseError>)
        requires
            old(self).wf(),
        ensures
            final(self).parsed_from(
                old(self),
                r,
                parse_binary(old(self).tokens@, old(self).current as nat, level),
            ),
        decreases remaining(old(self).tokens@, old(self).current as nat), binary_rank(level),
    {
        if level >= UNARY {
            return self.unary();
        }
        let mut expr = match self.binary(level + 1) {
            Ok(expr) => expr,
            Err(error) => return Err(error),
        };
        loop
            invariant_except_break
                after(
                    (self.current - old(self).current) as nat,
                    parse_operators(self.tokens@, self.current as nat, level, expr),
                ) == parse_binary(old(self).tokens@, old(self).current as nat, level),
            invariant
                level < UNARY,
                self.moved_from(old(self)),
                old(self).current <= self.current,
            ensures
                self.parsed_from(
                    old(self),
                    Ok::<Expr, LoxParseError>(expr),
                    parse_binary(old(self).tokens@, old(self).current as nat, level),
                ),
            decreases remaining(self.tokens@, self.current as nat),
        {
            if !self.match_operator(level) {
                break ;
            }
            let operator = self.previous().clone();
            let right = match self.binary(level + 1) {
                Ok(expr) => expr,
                Err(error) => return Err(error),
            };
            expr =
            Expr::Binary(BinaryExpr { left: Box::new(expr), operator, right: Box::new(right) });
        }
        Ok(expr)
    }

    fn unary(&mut self) -> (r: Result<Expr, LoxParseError>)
        requires
            old(self).wf(),
        ensures
            final(self).parsed_from(
                old(self),
                r,
                parse_unary(old(self).tokens@, old(self).current as nat),
            ),
        decreases remaining(old(self).tokens@, old(self).current as nat), 1nat,
    {
        if self.match_tokens(&[TokenType::Bang, TokenType::Minus]) {
            let operator = self.previous().clone();
            let right = match self.unary() {
                Ok(expr) => expr,
                Err(error) => return Err(error),
            };
            return Ok(Expr::Unary(UnaryExpr { operator, right: Box::new(right) }));
        }
        self.primary()
    }

    fn primary(&mut self) -> (r: Result<Expr, LoxParseError>)
        requires
            old(self).wf(),
        ensures
            final(self).parsed_from(
                old(self),
                r,
                parse_primary(old(self).tokens@, old(self).current as nat),
            ),
        decreases remaining(old(self).tokens@, old(self).current as nat), 0nat,
    {
        if self.match_tokens(&[TokenType::False]) {
            return Ok(Expr::Literal(LiteralExpr { value: Object::Boolean(false) }));
        }
        if self.match_tokens(&[TokenType::True]) {
            return Ok(Expr::Literal(LiteralExpr { value: Object::Boolean(true) }));
        }
        if self.match_tokens(&[TokenType::Nil]) {
            return Ok(Expr::Literal(LiteralExpr { value: Object::Nil }));
        }
        if self.match_tokens(&[TokenType::Number, TokenType::String]) {
            let value = match &self.previous().literal {
                Some(value) => value.clone(),
                None => vstd::pervasive::unreached(),
            };
            return Ok(Expr::Literal(LiteralExpr { value }));
        }
        if self.match_tokens(&[TokenType::LeftParen]) {
            let expr = match self.expression() {
                Ok(expr) => expr,
                Err(error) => return Err(error),
            };
            match self.consume(TokenType::RightParen, SyntaxErrorKind::ExpectRightParen) {
                Ok(()) => {},
                Err(error) => return Err(error),
            }
            return Ok(Expr::Grouping(GroupingExpr { expr: Box::new(expr) }));
        }
        Err(Self::error(self.peek(), SyntaxErrorKind::ExpectExpression))
    }

    /// Consumes the next token if it is of kind `ttype`; else the error of
    /// kind `kind` at that token.
    fn consume(&mut self, ttype: TokenType, kind: SyntaxErrorKind) -> (r: Result<
        (),
        LoxParseError,
    >)
        requires
            old(self).wf(),
            ttype != TokenType::Eof,
        ensures
            final(self).moved_from(old(self)),
            old(self).tokens@[old(self).current as int].ttype == ttype ==> r is Ok
                && final(self).current == old(self).current + 1,
            old(self).tokens@[old(self).current as int].ttype != ttype ==> r == Err::<
                (),
                LoxParseError,
            >(LoxParseError { kind, token: old(self).tokens@[old(self).current as int] })
                && final(self).current == old(self).current,
    {
        if self.check(ttype) {
            self.advance();
            return Ok(());
        }
        Err(Self::error(self.peek(), kind))
    }

    /// Consumes the next token if its kind is one of `types`.
    fn match_tokens(&mut self, types: &[TokenType]) -> (r: bool)
        requires
            old(self).wf(),
        ensures
            final(self).moved_from(old(self)),
            r == (old(self).tokens@[old(self).current as int].ttype != TokenType::Eof
                && types@.contains(old(self).tokens@[old(self).current as int].ttype)),
            final(self).current == old(self).current + if r {
                1int
            } else {
                0int
            },
    {
        let mut i: usize = 0;
        while i < types.len()
            invariant
                self.wf(),
                *self == *old(self),
                i <= types@.len(),
                forall|k: int|
                    0 <= k < i ==> !(self.tokens@[self.current as int].ttype != TokenType::Eof
                        && types@[k] == self.tokens@[self.current as int].ttype),
            decreases types@.len() - i,
        {
            if self.check(types[i]) {
                self.advance();
                return true;
            }
            i += 1;
        }
        false
    }

    /// Consumes the next token if it is an infix operator of level `level`.
    fn match_operator(&mut self, level: u8) -> (r: bool)
        requires
            old(self).wf(),
        ensures
            final(self).moved_from(old(self)),
            r == level_operator(level, old(self).tokens@[old(self).current as int].ttype),
            final(self).current == old(self).current + if r {
                1int
            } else {
                0int
            },
    {
        if level == EQUALITY {
            self.match_tokens(&[TokenType::BangEqual, TokenType::Equals])
        } else if level == COMPARISON {
            self.match_tokens(
                &[
                    TokenType::Less,
                    TokenType::Greater,
                    TokenType::LessEqual,
                    TokenType::GreaterEqual,
                ],
            )
        } else if level == TERM {
            self.match_tokens(&[TokenType::Minus, TokenType::Plus])
        } else if level == FACTOR {
            self.match_tokens(&[TokenType::Slash, TokenType::Star])
        } else if level == POWER {
            self.match_tokens(&[TokenType::Exponent])
        } else {
            false
        }
    }

    /// Whether the next token is of kind `ty` and not the end marker.
    fn check(&self, ty: TokenType) -> (r: bool)
        requires
            self.wf(),
        ensures
            r == (self.tokens@[self.current as int].ttype != TokenType::Eof
                && self.tokens@[self.current as int].ttype == ty),
    {
        if self.is_at_end() {
            return false;
        }
        self.peek().ttype == ty
    }

    /// Moves on to the next token, unless the read position is at the end
    /// marker.
    fn advance(&mut self)
        requires
            old(self).wf(),
        ensures
            final(self).moved_from(old(self)),
            final(self).current == old(self).current + if kind_at(
                old(self).tokens@,
                old(self).current as nat,
            ) == TokenType::Eof {
                0int
            } else {
                1int
            },
    {
        if !self.is_at_end() {
            assert(self.current < self.tokens.len());
            self.current += 1
        }
    }

    fn is_at_end(&self) -> (r: bool)
        requires
            self.wf(),
        ensures
            r == (self.tokens@[self.current as int].ttype == TokenType::Eof),
    {
        self.peek().ttype == TokenType::Eof
    }

    fn peek(&self) -> (r: &Token)
        requires
            self.wf(),
        ensures
            *r == self.tokens@[self.current as int],
    {
        &self.tokens[self.current]
    }

    fn previous(&self) -> (r: &Token)
        requires
            self.wf(),
            self.current >= 1,
        ensures
            *r == self.tokens@[self.current - 1],
    {
        &self.tokens[self.current - 1]
    }

    fn error(token: &Token, kind: SyntaxErrorKind) -> (r: LoxParseError)
        ensures
            r == (LoxParseError { kind, token: *token }),
    {
        LoxParseError { kind, token: token.clone() }
    }

    /// Discards tokens up to the next statement boundary: the token at the
    /// read position, then every token until the end marker is next, a
    /// semicolon has just been passed, or a token that starts a statement is
    /// next.
    pub fn synchronize(&mut self)
        requires
            old(self).wf(),
        ensures
            final(self).wf(),
            final(self).tokens() == old(self).tokens(),
            final(self).reported() == old(self).reported(),
            final(self).position() == synchronized(old(self).tokens(), old(self).position()),
            kind_at(old(self).tokens(), old(self).position()) != TokenType::Eof ==> old(
                self,
            ).position() < final(self).position(),
    {
        self.advance();
        while !self.is_at_end()
            invariant
                self.moved_from(old(self)),
                old(self).current <= self.current,
                old(self).tokens@[old(self).current as int].ttype != TokenType::Eof
                    ==> old(self).current < self.current,
                old(self).tokens@[old(self).current as int].ttype == TokenType::Eof
                    ==> old(self).current == self.current,
                old(self).tokens@[old(self).current as int].ttype != TokenType::Eof
                    ==> boundary_from(self.tokens@, self.current as nat) == synchronized(
                    old(self).tokens@,
                    old(self).current as nat,
                ),
            decreases remaining(self.tokens@, self.current as nat),
        {
            if self.previous().ttype == TokenType::SemiColon {
                return ;
            }
            match self.peek().ttype {
                TokenType::If
                | TokenType::Class
                | TokenType::Var
                | TokenType::Fun
                | TokenType::For
                | TokenType::While
                | TokenType::Print
                | TokenType::Return => return ,
                _ => self.advance(),
            };
        }
    }
}

} // verus!
