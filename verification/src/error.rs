//! Diagnostics: a line and a message, and the texts that report them.

use vstd::prelude::*;
use vstd::string::StringExecFns;
use crate::text::{decimal, decimal_text};
use crate::token::Token;
use crate::token_type::TokenType;

verus! {

/// A diagnostic: a source line and a message.
#[derive(Debug, PartialEq)]
pub struct Lox {
    pub line: usize,
    pub message: String,
}

/// The report of `message` at line `line`, located by `loc`.
pub open spec fn report_text(line: usize, loc: Seq<char>, message: Seq<char>) -> Seq<char> {
    "[line "@ + decimal_text(line as nat) + "] Error chars ["@ + loc + "] : "@ + message
}

/// How a report locates `token`: at the end of the input, or at the token's
/// lexeme.
pub open spec fn location_text(token: Token) -> Seq<char> {
    if token.ttype == TokenType::Eof {
        "at end."@
    } else {
        " at '"@ + token.lexeme@ + "'"@
    }
}

/// The report of a syntax error with message `message` at `token`.
pub open spec fn parse_error_text(token: Token, message: Seq<char>) -> Seq<char> {
    report_text(token.line, location_text(token), message)
}

/// The report of a runtime error with message `message` at `token`.
pub open spec fn runtime_error_text(token: Token, message: Seq<char>) -> Seq<char> {
    message + "\n[line "@ + decimal_text(token.line as nat) + "]"@
}

impl Lox {
    /// The diagnostic with the given line and message.
    pub fn error(line: usize, message: String) -> (r: Lox)
        ensures
            r.line == line,
            r.message == message,
    {
        Lox { line, message }
    }

    /// The text of this diagnostic, located by `loc`.
    pub fn report(&self, loc: &str) -> (r: String)
        ensures
            r@ == report_text(self.line, loc@, self.message@),
    {
        let mut text = String::from_str("[line ");
        text.append(decimal(self.line).as_str());
        text.append("] Error chars [");
        text.append(loc);
        text.append("] : ");
        text.append(self.message.as_str());
        text
    }

    /// The report of a syntax error at `token`.
    pub fn parse_error(token: &Token, message: String) -> (r: String)
        ensures
            r@ == parse_error_text(*token, message@),
    {
        if token.ttype == TokenType::Eof {
            Lox::report(&Lox { line: token.line, message }, "at end.")
        } else {
            let mut loc = String::from_str(" at '");
            loc.append(token.lexeme.as_str());
            loc.append("'");
            Lox::report(&Lox { line: token.line, message }, loc.as_str())
        }
    }

    /// The report of a runtime error at `token`.
    pub fn runtime_error(token: &Token, message: &str) -> (r: String)
        ensures
            r@ == runtime_error_text(*token, message@),
    {
        let mut text = String::from_str(message);
        text.append("\n[line ");
        text.append(decimal(token.line).as_str());
        text.append("]");
        text
    }
}

/// The two lexical errors.
#[derive(Debug, Clone, Copy, PartialEq, Eq, Structural)]
pub enum LexicalErrorKind {
    UnexpectedCharacter,
    UnterminatedString,
}

/// A lexical error: its kind, the line it is attributed to, and the position
/// in the source at which scanning went on.
#[derive(Debug, Clone, Copy, PartialEq, Eq, Structural)]
pub struct LexicalError {
    pub kind: LexicalErrorKind,
    pub line: usize,
    pub offset: usize,
}

/// The message of a lexical error of kind `kind`.
pub open spec fn lexical_message(kind: LexicalErrorKind) -> Seq<char> {
    match kind {
        LexicalErrorKind::UnexpectedCharacter => "Unexpected character."@,
        LexicalErrorKind::UnterminatedString => "Unterminated string."@,
    }
}

impl LexicalError {
    /// The message of this error.
    pub fn message(&self) -> (r: &'static str)
        ensures
            r@ == lexical_message(self.kind),
    {
        match self.kind {
            LexicalErrorKind::UnexpectedCharacter => "Unexpected character.",
            LexicalErrorKind::UnterminatedString => "Unterminated string.",
        }
    }

    /// This error as a diagnostic.
    pub fn diagnostic(&self) -> (r: Lox)
        ensures
            r.line == self.line,
            r.message@ == lexical_message(self.kind),
    {
        Lox::error(self.line, String::from_str(self.message()))
    }

    /// The report of this error, located by its offset.
    pub fn report(&self) -> (r: String)
        ensures
            r@ == report_text(
                self.line,
                decimal_text(self.offset as nat),
                lexical_message(self.kind),
            ),
    {
        self.diagnostic().report(decimal(self.offset).as_str())
    }
}

} // verus!
