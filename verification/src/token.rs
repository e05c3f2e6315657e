//! Values and tokens.

use vstd::prelude::*;
use vstd::string::StringExecFns;
use crate::text::{chars_of, string_of};
use crate::token_type::{kind_name, TokenType};

verus! {

/// A runtime value, also carried by literal tokens.
///
/// `Num` holds the binary64 encoding of the number.
#[derive(Debug, PartialEq)]
pub enum Object {
    Num(u64),
    Str(String),
    Boolean(bool),
    Nil,
}

/// The mathematical content of an [`Object`].
pub enum ObjectView {
    Num(u64),
    Str(Seq<char>),
    Boolean(bool),
    Nil,
}

impl View for Object {
    type V = ObjectView;

    open spec fn view(&self) -> ObjectView {
        match self {
            Object::Num(bits) => ObjectView::Num(*bits),
            Object::Str(s) => ObjectView::Str(s@),
            Object::Boolean(b) => ObjectView::Boolean(*b),
            Object::Nil => ObjectView::Nil,
        }
    }
}

impl Clone for Object {
    fn clone(&self) -> (r: Self)
        ensures
            r == *self,
    {
        match self {
            Object::Num(bits) => Object::Num(*bits),
            Object::Str(s) => Object::Str(s.clone()),
            Object::Boolean(b) => Object::Boolean(*b),
            Object::Nil => Object::Nil,
        }
    }
}

/// `text` without a final `.0`.
pub open spec fn without_point_zero(text: Seq<char>) -> Seq<char> {
    if text.len() >= 2 && text[text.len() - 2] == '.' && text[text.len() - 1] == '0' {
        text.subrange(0, text.len() - 2)
    } else {
        text
    }
}

/// `text` is a text of the number encoded by `bits`: what `show` gives for
/// it, without a final `.0`.
pub open spec fn number_shown<S: Fn(u64) -> String>(show: S, bits: u64, text: Seq<char>) -> bool {
    exists|digits: String| #[trigger]
        call_ensures(show, (bits,), digits) && text == without_point_zero(digits@)
}

/// `text` is a text of `value`, where `show` gives the text of a number: a
/// number is shown as `show` gives it, without a final `.0`; a string as
/// itself; a boolean as `true` or `false`; nil as `nil`.
pub open spec fn shown<S: Fn(u64) -> String>(show: S, value: ObjectView, text: Seq<char>) -> bool {
    match value {
        ObjectView::Num(bits) => number_shown(show, bits, text),
        ObjectView::Str(s) => text == s,
        ObjectView::Boolean(b) => text == if b {
            "true"@
        } else {
            "false"@
        },
        ObjectView::Nil => text == "nil"@,
    }
}

/// Every text that `show` gives is the one that `digits` names.
pub open spec fn shows<S: Fn(u64) -> String>(show: S, digits: spec_fn(u64) -> Seq<char>) -> bool {
    forall|bits: u64, text: String| #[trigger]
        call_ensures(show, (bits,), text) ==> text@ == digits(bits)
}

/// The text of `value` where `digits` names the text of a number.
pub open spec fn text_under(digits: spec_fn(u64) -> Seq<char>, value: ObjectView) -> Seq<char> {
    match value {
        ObjectView::Num(bits) => without_point_zero(digits(bits)),
        ObjectView::Str(s) => s,
        ObjectView::Boolean(b) => if b {
            "true"@
        } else {
            "false"@
        },
        ObjectView::Nil => "nil"@,
    }
}

/// A value has one text: where every text that `show` gives is the one that
/// `digits` names, a text of a value is its text under `digits`.
pub proof fn text_follows_digits<S: Fn(u64) -> String>(
    show: S,
    digits: spec_fn(u64) -> Seq<char>,
    value: ObjectView,
    text: Seq<char>,
)
    requires
        shows(show, digits),
        shown(show, value, text),
    ensures
        text == text_under(digits, value),
{
}

impl Object {
    /// The text of this value, where `show` gives the text of a number.
    pub fn to_text<S: Fn(u64) -> String>(&self, show: &S) -> (r: String)
        requires
            forall|bits: u64| call_requires(*show, (bits,)),
        ensures
            shown(*show, self@, r@),
    {
        match self {
            Object::Num(num) => {
                let digits = (*show)(*num);
                let chars = chars_of(digits.as_str());
                let n = chars.len();
                if n >= 2 && chars[n - 2] == '.' && chars[n - 1] == '0' {
                    string_of(&chars, 0, n - 2)
                } else {
                    digits
                }
            },
            Object::Str(s) => s.clone(),
            Object::Boolean(b) => String::from_str(
                if *b {
                    "true"
                } else {
                    "false"
                },
            ),
            Object::Nil => String::from_str("nil"),
        }
    }
}

/// A classified lexeme with its literal value, if it has one, and its line.
#[derive(Debug, PartialEq)]
pub struct Token {
    pub ttype: TokenType,
    pub lexeme: String,
    pub literal: Option<Object>,
    pub line: usize,
}

/// The mathematical content of a [`Token`].
pub struct TokenView {
    pub ttype: TokenType,
    pub lexeme: Seq<char>,
    pub literal: Option<ObjectView>,
    pub line: usize,
}

impl View for Token {
    type V = TokenView;

    open spec fn view(&self) -> TokenView {
        TokenView {
            ttype: self.ttype,
            lexeme: self.lexeme@,
            literal: match self.literal {
                Some(value) => Some(value@),
                None => None,
            },
            line: self.line,
        }
    }
}

impl Token {
    pub fn new(ttype: TokenType, lexeme: String, literal: Option<Object>, line: usize) -> (r: Self)
        ensures
            r.ttype == ttype,
            r.lexeme == lexeme,
            r.literal == literal,
            r.line == line,
    {
        Self { ttype, lexeme, literal, line }
    }
}

impl Clone for Token {
    fn clone(&self) -> (r: Self)
        ensures
            r == *self,
    {
        let literal = match &self.literal {
            Some(value) => Some(value.clone()),
            None => None,
        };
        Token { ttype: self.ttype, lexeme: self.lexeme.clone(), literal, line: self.line }
    }
}

/// `text` is a text of the token `token`, where `show` gives the text of a
/// number: the token's kind, lexeme and literal, or `None` for no literal.
pub open spec fn token_shown<S: Fn(u64) -> String>(show: S, token: Token, text: Seq<char>) -> bool {
    exists|literal: Seq<char>| #[trigger]
        literal_shown(show, token.literal, literal) && text == "{ Token: "@ + kind_name(
            token.ttype,
        ) + "   Lexeme: "@ + token.lexeme@ + "   Literal: "@ + literal + " }"@
}

/// `text` is a text of the literal `literal` of a token.
pub open spec fn literal_shown<S: Fn(u64) -> String>(
    show: S,
    literal: Option<Object>,
    text: Seq<char>,
) -> bool {
    match literal {
        Some(value) => shown(show, value@, text),
        None => text == "None"@,
    }
}

impl Token {
    /// The text of this token, where `show` gives the text of a number.
    pub fn to_text<S: Fn(u64) -> String>(&self, show: &S) -> (r: String)
        requires
            forall|bits: u64| call_requires(*show, (bits,)),
        ensures
            token_shown(*show, *self, r@),
    {
        let literal = match &self.literal {
            Some(literal) => literal.to_text(show),
            None => String::from_str("None"),
        };
        let mut text = String::from_str("{ Token: ");
        text.append(self.ttype.name());
        text.append("   Lexeme: ");
        text.append(self.lexeme.as_str());
        text.append("   Literal: ");
        text.append(literal.as_str());
        text.append(" }");
        assert(literal_shown(*show, self.literal, literal@));
        text
    }
}

} // verus!
