//! The scanner: from a source text to its tokens and lexical errors.

use vstd::prelude::*;
use crate::error::{LexicalError, LexicalErrorKind};
use crate::grammar::well_formed;
use crate::lexical::{
    all_numeric,
    alpha,
    alpha_numeric,
    comment_end,
    decimal_literal,
    digits_end,
    errors_match,
    faults,
    faults_from,
    follows,
    keyword_of,
    lemma_step_advances,
    lexemes,
    lexemes_from,
    line_end,
    newlines,
    number_end,
    numeric,
    quote_at,
    scan_step,
    scanned_is_well_formed,
    scanned_lines_ordered,
    string_step,
    token_matches,
    token_step,
    tokens_match,
    word_end,
    word_type,
    Fault,
    Found,
    Lexeme,
    Step,
};
use crate::text::{chars_of, spells, string_of};
use crate::token::{Object, Token};
use crate::token_type::TokenType;

verus! {

/// The tokens and the lexical errors of one scan.
pub struct Scanned {
    pub tokens: Vec<Token>,
    pub errors: Vec<LexicalError>,
}

/// Whether `c` is a letter of the basic Latin alphabet or an underscore.
pub fn is_alpha(c: char) -> (r: bool)
    ensures
        r == alpha(c),
{
    (c >= 'a' && c <= 'z') || (c >= 'A' && c <= 'Z') || c == '_'
}

/// Whether `c` is a decimal digit.
pub fn is_numeric(c: char) -> (r: bool)
    ensures
        r == numeric(c),
{
    c >= '0' && c <= '9'
}

/// Whether `c` may continue an identifier.
pub fn is_alpha_numeric(c: char) -> (r: bool)
    ensures
        r == alpha_numeric(c),
{
    is_alpha(c) || is_numeric(c)
}

/// The reserved word that `word` spells, if it spells one.
pub fn keyword(word: &str) -> (r: Option<TokenType>)
    ensures
        r == keyword_of(word@),
{
    let chars = chars_of(word);
    let n = chars.len();
    assert(chars@.subrange(0, n as int) =~= word@);
    if spells(&chars, 0, n, "and") {
        Some(TokenType::And)
    } else if spells(&chars, 0, n, "class") {
        Some(TokenType::Class)
    } else if spells(&chars, 0, n, "else") {
        Some(TokenType::Else)
    } else if spells(&chars, 0, n, "false") {
        Some(TokenType::False)
    } else if spells(&chars, 0, n, "for") {
        Some(TokenType::For)
    } else if spells(&chars, 0, n, "fun") {
        Some(TokenType::Fun)
    } else if spells(&chars, 0, n, "if") {
        Some(TokenType::If)
    } else if spells(&chars, 0, n, "nil") {
        Some(TokenType::Nil)
    } else if spells(&chars, 0, n, "or") {
        Some(TokenType::Or)
    } else if spells(&chars, 0, n, "print") {
        Some(TokenType::Print)
    } else if spells(&chars, 0, n, "return") {
        Some(TokenType::Return)
    } else if spells(&chars, 0, n, "super") {
        Some(TokenType::Super)
    } else if spells(&chars, 0, n, "this") {
        Some(TokenType::This)
    } else if spells(&chars, 0, n, "true") {
        Some(TokenType::True)
    } else if spells(&chars, 0, n, "var") {
        Some(TokenType::Var)
    } else if spells(&chars, 0, n, "while") {
        Some(TokenType::While)
    } else {
        None
    }
}

/// A scanner over the characters of a source text.
///
/// `to_number` converts the text of a number token to its binary64 encoding.
pub struct Scanner<P> {
    source: Vec<char>,
    tokens: Vec<Token>,
    errors: Vec<LexicalError>,
    start: usize,
    current: usize,
    line: usize,
    to_number: P,
}

impl<P: Fn(&str) -> u64> Scanner<P> {
    /// The source text.
    pub closed spec fn text(&self) -> Seq<char> {
        self.source@
    }

    /// The conversion that number tokens go through.
    pub closed spec fn number_reader(&self) -> P {
        self.to_number
    }

    /// The cursors lie within the source, the line counter cannot overflow,
    /// and `to_number` accepts the text of every number token.
    pub closed spec fn wf(&self) -> bool {
        &&& self.source@.len() < usize::MAX
        &&& self.start <= self.current <= self.source@.len()
        &&& 1 <= self.line <= self.current + 1
        &&& forall|text: &str| decimal_literal(text@) ==> call_requires(self.to_number, (text,))
    }

    /// Nothing has been scanned yet.
    pub closed spec fn unscanned(&self) -> bool {
        &&& self.wf()
        &&& self.tokens@.len() == 0
        &&& self.errors@.len() == 0
        &&& self.current == 0
        &&& self.line == 1
    }

    /// `self` differs from `before` in its scan position at most.
    spec fn moved_from(&self, before: &Self) -> bool {
        &&& self.source == before.source
        &&& self.tokens == before.tokens
        &&& self.errors == before.errors
        &&& self.start == before.start
        &&& self.line == before.line
        &&& self.to_number == before.to_number
    }

    /// `self` has taken the step `step` from `before`.
    spec fn stepped_from(&self, before: &Self, step: Step) -> bool {
        &&& self.wf()
        &&& self.source == before.source
        &&& self.to_number == before.to_number
        &&& self.current == step.end
        &&& self.line == step.line
        &&& match step.found {
            Found::Token(ttype) => {
                &&& self.tokens@.len() == before.tokens@.len() + 1
                &&& self.tokens@.drop_last() == before.tokens@
                &&& token_matches(
                    self.tokens@.last(),
                    Lexeme {
                        ttype,
                        start: before.start as int,
                        end: step.end,
                        line: step.line,
                    },
                    self.source@,
                    self.to_number,
                )
                &&& self.errors@ == before.errors@
            },
            Found::Nothing => self.tokens@ == before.tokens@ && self.errors@ == before.errors@,
            Found::Error(kind) => {
                &&& self.tokens@ == before.tokens@
                &&& self.errors@ == before.errors@.push(
                    LexicalError {
                        kind,
                        line: before.line,
                        offset: step.end as usize,
                    },
                )
            },
        }
    }

    /// A scanner at the start of `source`.
    pub fn new(source: &str, to_number: P) -> (r: Self)
        requires
            source@.len() < usize::MAX,
            forall|text: &str| decimal_literal(text@) ==> call_requires(to_number, (text,)),
        ensures
            r.unscanned(),
            r.text() == source@,
            r.number_reader() == to_number,
    {
        Scanner {
            source: chars_of(source),
            tokens: Vec::new(),
            errors: Vec::new(),
            start: 0,
            current: 0,
            line: 1,
            to_number,
        }
    }

    fn is_at_end(&self) -> (r: bool)
        ensures
            r == (self.current >= self.source@.len()),
    {
        self.current >= self.source.len()
    }

    /// Consumes the next character if it is `expected`.
    fn is_next(&mut self, expected: char) -> (r: bool)
        requires
            old(self).wf(),
        ensures
            final(self).wf(),
            final(self).moved_from(old(self)),
            r == follows(old(self).source@, old(self).current as int, expected),
            final(self).current == old(self).current + if r {
                1int
            } else {
                0int
            },
    {
        if self.is_at_end() {
            return false;
        }
        if self.source[self.current] != expected {
            return false;
        }
        self.current += 1;
        true
    }

    /// The next character, or NUL at the end of the source.
    fn peek(&self) -> (r: char)
        ensures
            r == if self.current < self.source@.len() {
                self.source@[self.current as int]
            } else {
                '\0'
            },
    {
        if self.is_at_end() {
            return '\0';
        }
        self.source[self.current]
    }

    /// The character after the next, or NUL where there is none.
    fn peek_next(&self) -> (r: char)
        requires
            self.wf(),
        ensures
            r == if self.current + 1 < self.source@.len() {
                self.source@[self.current + 1]
            } else {
                '\0'
            },
    {
        if self.current + 1 >= self.source.len() {
            return '\0';
        }
        self.source[self.current + 1]
    }

    /// Consumes and returns the next character.
    fn advance(&mut self) -> (r: char)
        requires
            old(self).wf(),
            old(self).current < old(self).source@.len(),
        ensures
            final(self).wf(),
            final(self).moved_from(old(self)),
            final(self).current == old(self).current + 1,
            r == old(self).source@[old(self).current as int],
    {
        let ch = self.source[self.current];
        self.current += 1;
        ch
    }

    /// Appends the token of kind `ttype` whose lexeme runs from `start` to
    /// `current`.
    fn add_token(&mut self, ttype: TokenType, literal: Option<Object>)
        requires
            old(self).wf(),
        ensures
            final(self).wf(),
            final(self).source == old(self).source,
            final(self).errors == old(self).errors,
            final(self).start == old(self).start,
            final(self).current == old(self).current,
            final(self).line == old(self).line,
            final(self).to_number == old(self).to_number,
            final(self).tokens@.len() == old(self).tokens@.len() + 1,
            final(self).tokens@.drop_last() == old(self).tokens@,
            final(self).tokens@.last().ttype == ttype,
            final(self).tokens@.last().lexeme@ == old(self).source@.subrange(
                old(self).start as int,
                old(self).current as int,
            ),
            final(self).tokens@.last().literal == literal,
            final(self).tokens@.last().line == old(self).line,
    {
        let text = string_of(&self.source, self.start, self.current);
        self.tokens.push(Token::new(ttype, text, literal, self.line));
    }

    /// Records a lexical error at `line`.
    fn add_error(&mut self, kind: LexicalErrorKind, line: usize)
        requires
            old(self).wf(),
        ensures
            final(self).wf(),
            final(self).source == old(self).source,
            final(self).tokens == old(self).tokens,
            final(self).start == old(self).start,
            final(self).current == old(self).current,
            final(self).line == old(self).line,
            final(self).to_number == old(self).to_number,
            final(self).errors@ == old(self).errors@.push(
                LexicalError { kind, line, offset: old(self).current },
            ),
    {
        self.errors.push(LexicalError { kind, line, offset: self.current });
    }

    /// Scans a string literal whose opening quote has been consumed.
    fn string(&mut self)
        requires
            old(self).wf(),
            old(self).current == old(self).start + 1,
        ensures
            final(self).stepped_from(
                old(self),
                string_step(old(self).source@, old(self).start as int, old(self).line as int),
            ),
    {
        let opened = self.line;
        while self.peek() != '"' && !self.is_at_end()
            invariant
                self.wf(),
                self.source == old(self).source,
                self.tokens == old(self).tokens,
                self.errors == old(self).errors,
                self.start == old(self).start,
                self.to_number == old(self).to_number,
                self.start + 1 <= self.current,
                opened == old(self).line,
                quote_at(self.source@, self.current as int) == quote_at(
                    self.source@,
                    self.start + 1,
                ),
                self.line == opened + newlines(
                    self.source@,
                    self.start + 1,
                    self.current as int,
                ),
                self.line <= opened + (self.current - (self.start + 1)),
                opened <= self.start + 2,
            decreases self.source@.len() - self.current,
        {
            let c = self.advance();
            if c == '\n' {
                self.line += 1;
            }
        }
        if self.is_at_end() {
            self.add_error(LexicalErrorKind::UnterminatedString, opened);
            return ;
        }
        self.advance();
        let value = string_of(&self.source, self.start + 1, self.current - 1);
        self.add_token(TokenType::String, Some(Object::Str(value)));
    }

    /// Scans a number whose first digit has been consumed.
    fn number(&mut self)
        requires
            old(self).wf(),
            old(self).current == old(self).start + 1,
            numeric(old(self).source@[old(self).start as int]),
        ensures
            final(self).stepped_from(
                old(self),
                token_step(
                    number_end(old(self).source@, old(self).current as int),
                    old(self).line as int,
                    TokenType::Number,
                ),
            ),
    {
        while is_numeric(self.peek())
            invariant
                self.wf(),
                self.moved_from(old(self)),
                self.start + 1 <= self.current,
                digits_end(self.source@, self.current as int) == digits_end(
                    self.source@,
                    self.start + 1,
                ),
                all_numeric(self.source@, self.start as int, self.current as int),
            decreases self.source@.len() - self.current,
        {
            self.advance();
        }
        let ghost whole = self.current as int;
        if self.peek() == '.' && is_numeric(self.peek_next()) {
            self.advance();
            while is_numeric(self.peek())
                invariant
                    self.wf(),
                    self.moved_from(old(self)),
                    whole + 1 <= self.current,
                    digits_end(self.source@, self.current as int) == digits_end(
                        self.source@,
                        whole + 1,
                    ),
                    all_numeric(self.source@, whole + 1, self.current as int),
                decreases self.source@.len() - self.current,
            {
                self.advance();
            }
        }
        let text = string_of(&self.source, self.start, self.current);
        assert(all_numeric(text@, 0, whole - self.start));
        let bits = (self.to_number)(text.as_str());
        self.add_token(TokenType::Number, Some(Object::Num(bits)));
    }

    /// Scans an identifier or reserved word whose first character has been
    /// consumed.
    fn identifier(&mut self)
        requires
            old(self).wf(),
            old(self).current == old(self).start + 1,
        ensures
            final(self).stepped_from(
                old(self),
                token_step(
                    word_end(old(self).source@, old(self).current as int),
                    old(self).line as int,
                    word_type(
                        old(self).source@.subrange(
                            old(self).start as int,
                            word_end(old(self).source@, old(self).current as int),
                        ),
                    ),
                ),
            ),
    {
        while is_alpha_numeric(self.peek())
            invariant
                self.wf(),
                self.moved_from(old(self)),
                self.start + 1 <= self.current,
                word_end(self.source@, self.current as int) == word_end(
                    self.source@,
                    self.start + 1,
                ),
            decreases self.source@.len() - self.current,
        {
            self.advance();
        }
        let text = string_of(&self.source, self.start, self.current);
        let ttype = if let Some(token) = keyword(text.as_str()) {
            token
        } else {
            TokenType::Ident
        };
        self.add_token(ttype, None);
    }

    /// Skips a line comment whose two slashes have been consumed.
    fn line_comment(&mut self)
        requires
            old(self).wf(),
        ensures
            final(self).wf(),
            final(self).moved_from(old(self)),
            final(self).current == line_end(old(self).source@, old(self).current as int),
    {
        while self.peek() != '\n' && !self.is_at_end()
            invariant
                self.wf(),
                self.moved_from(old(self)),
                line_end(self.source@, self.current as int) == line_end(
                    self.source@,
                    old(self).current as int,
                ),
            decreases self.source@.len() - self.current,
        {
            self.advance();
        }
    }

    /// Skips a block comment whose opening marker has been consumed.
    fn block_comment(&mut self)
        requires
            old(self).wf(),
        ensures
            final(self).wf(),
            final(self).moved_from(old(self)),
            final(self).current == comment_end(old(self).source@, old(self).current as int),
    {
        while !self.is_at_end()
            invariant_except_break
                comment_end(self.source@, self.current as int) == comment_end(
                    self.source@,
                    old(self).current as int,
                ),
            invariant
                self.wf(),
                self.moved_from(old(self)),
            ensures
                self.current == comment_end(self.source@, old(self).current as int),
            decreases self.source@.len() - self.current,
        {
            if self.peek() == '*' && self.peek_next() == '/' {
                self.advance();
                self.advance();
                break ;
            }
            self.advance();
        }
    }

    /// Scans from `start`, which is the current position, to the end of the
    /// next token, comment, stretch of white space or lexical error.
    fn scan_token(&mut self)
        requires
            old(self).wf(),
            old(self).start == old(self).current,
            old(self).current < old(self).source@.len(),
        ensures
            final(self).stepped_from(
                old(self),
                scan_step(old(self).source@, old(self).start as int, old(self).line as int),
            ),
    {
        let c = self.advance();
        match c {
            '(' => self.add_token(TokenType::LeftParen, None),
            ')' => self.add_token(TokenType::RightParen, None),
            '{' => self.add_token(TokenType::LeftBrace, None),
            '}' => self.add_token(TokenType::RightBrace, None),
            ',' => self.add_token(TokenType::Comma, None),
            '.' => self.add_token(TokenType::Dot, None),
            '-' => self.add_token(TokenType::Minus, None),
            '+' => self.add_token(TokenType::Plus, None),
            ';' => self.add_token(TokenType::SemiColon, None),
            '*' => self.add_token(TokenType::Star, None),
            '^' => self.add_token(TokenType::Exponent, None),
            '!' => {
                let is_next = self.is_next('=');
                self.add_token(
                    if is_next {
                        TokenType::BangEqual
                    } else {
                        TokenType::Bang
                    },
                    None,
                );
            },
            '=' => {
                let is_next = self.is_next('=');
                self.add_token(
                    if is_next {
                        TokenType::Equals
                    } else {
                        TokenType::Assign
                    },
                    None,
                );
            },
            '<' => {
                let is_next = self.is_next('=');
                self.add_token(
                    if is_next {
                        TokenType::LessEqual
                    } else {
                        TokenType::Less
                    },
                    None,
                );
            },
            '>' => {
                let is_next = self.is_next('=');
                self.add_token(
                    if is_next {
                        TokenType::GreaterEqual
                    } else {
                        TokenType::Greater
                    },
                    None,
                );
            },
            '/' => {
                if self.is_next('/') {
                    self.line_comment();
                } else if self.is_next('*') {
                    self.block_comment();
                } else {
                    self.add_token(TokenType::Slash, None);
                }
            },
            ' ' | '\r' | '\t' => {},
            '\n' => self.line += 1,
            '"' => self.string(),
            n if is_numeric(n) => self.number(),
            n if is_alpha(n) => self.identifier(),
            _ => {
                let line = self.line;
                self.add_error(LexicalErrorKind::UnexpectedCharacter, line);
            },
        }
    }

    /// Scans the whole source: its tokens in order, closed by the end marker,
    /// and its lexical errors in order.
    pub fn scan_tokens(self) -> (r: Scanned)
        requires
            self.unscanned(),
        ensures
            tokens_match(r.tokens@, lexemes(self.text()), self.text(), self.number_reader()),
            errors_match(r.errors@, faults(self.text())),
            well_formed(r.tokens@),
            forall|i: int, j: int|
                0 <= i <= j < r.tokens@.len() ==> (#[trigger] r.tokens@[i]).line <= (
                #[trigger] r.tokens@[j]).line,
    {
        let mut scanner = self;
        let ghost src = scanner.source@;
        let ghost to_number = scanner.to_number;
        let ghost mut found: Seq<Lexeme> = Seq::empty();
        let ghost mut failed: Seq<Fault> = Seq::empty();
        while !scanner.is_at_end()
            invariant
                scanner.wf(),
                scanner.source@ == src,
                scanner.to_number == to_number,
                found + lexemes_from(src, scanner.current as int, scanner.line as int) == lexemes(src),
                tokens_match(scanner.tokens@, found, src, to_number),
                failed + faults_from(src, scanner.current as int, scanner.line as int) == faults(src),
                errors_match(scanner.errors@, failed),
            decreases src.len() - scanner.current,
        {
            scanner.start = scanner.current;
            let ghost before = scanner;
            scanner.scan_token();
            proof {
                let step = scan_step(src, before.current as int, before.line as int);
                lemma_step_advances(src, before.current as int, before.line as int);
                match step.found {
                    Found::Token(ttype) => {
                        let lexeme = Lexeme {
                            ttype,
                            start: before.current as int,
                            end: step.end,
                            line: step.line,
                        };
                        found = found.push(lexeme);
                        assert forall|i: int| 0 <= i < scanner.tokens@.len() implies token_matches(
                            #[trigger] scanner.tokens@[i],
                            found[i],
                            src,
                            to_number,
                        ) by {
                            if i < before.tokens@.len() {
                                assert(scanner.tokens@[i] == scanner.tokens@.drop_last()[i]);
                            }
                        }
                    },
                    Found::Nothing => {},
                    Found::Error(kind) => {
                        let fault = Fault { kind, line: before.line as int, offset: step.end };
                        failed = failed.push(fault);
                    },
                }
            }
        }
        let line = scanner.line;
        scanner.tokens.push(Token::new(TokenType::Eof, String::new(), None, line));
        proof {
            let end = Lexeme {
                ttype: TokenType::Eof,
                start: src.len() as int,
                end: src.len() as int,
                line: line as int,
            };
            assert(scanner.tokens@.last().lexeme@ =~= src.subrange(end.start, end.end));
            assert forall|i: int| 0 <= i < scanner.tokens@.len() implies token_matches(
                #[trigger] scanner.tokens@[i],
                lexemes(src)[i],
                src,
                to_number,
            ) by {}
            scanned_is_well_formed(scanner.tokens@, src, to_number);
            scanned_lines_ordered(scanner.tokens@, src, to_number);
        }
        Scanned { tokens: scanner.tokens, errors: scanner.errors }
    }
}

} // verus!
