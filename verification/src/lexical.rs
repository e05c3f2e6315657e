//! The lexical structure of a source text: its tokens and its lexical
//! errors.

use vstd::prelude::*;
use crate::error::{LexicalError, LexicalErrorKind};
use crate::grammar::well_formed;
use crate::token::{Object, ObjectView, Token, TokenView};
use crate::token_type::TokenType;

verus! {

/// A decimal digit.
pub open spec fn numeric(c: char) -> bool {
    '0' <= c && c <= '9'
}

/// A letter of the basic Latin alphabet, or an underscore.
pub open spec fn alpha(c: char) -> bool {
    ('a' <= c && c <= 'z') || ('A' <= c && c <= 'Z') || c == '_'
}

/// A character that may continue an identifier.
pub open spec fn alpha_numeric(c: char) -> bool {
    alpha(c) || numeric(c)
}

/// Position `i` of `src` holds `c`.
pub open spec fn follows(src: Seq<char>, i: int, c: char) -> bool {
    0 <= i < src.len() && src[i] == c
}

/// The first position at or after `i` that holds no digit.
pub open spec fn digits_end(src: Seq<char>, i: int) -> int
    decreases src.len() - i,
{
    if 0 <= i < src.len() && numeric(src[i]) {
        digits_end(src, i + 1)
    } else {
        i
    }
}

/// The first position at or after `i` that cannot continue an identifier.
pub open spec fn word_end(src: Seq<char>, i: int) -> int
    decreases src.len() - i,
{
    if 0 <= i < src.len() && alpha_numeric(src[i]) {
        word_end(src, i + 1)
    } else {
        i
    }
}

/// The first position at or after `i` that holds a line feed, or the end of
/// `src`.
pub open spec fn line_end(src: Seq<char>, i: int) -> int
    decreases src.len() - i,
{
    if 0 <= i < src.len() && src[i] != '\n' {
        line_end(src, i + 1)
    } else {
        i
    }
}

/// The position just past the first `*/` that starts at or after `i`, or the
/// end of `src` where there is none.
pub open spec fn comment_end(src: Seq<char>, i: int) -> int
    decreases src.len() - i,
{
    if 0 <= i < src.len() {
        if src[i] == '*' && follows(src, i + 1, '/') {
            i + 2
        } else {
            comment_end(src, i + 1)
        }
    } else {
        i
    }
}

/// The first position at or after `i` that holds a double quote, or the end of
/// `src`.
pub open spec fn quote_at(src: Seq<char>, i: int) -> int
    decreases src.len() - i,
{
    if 0 <= i < src.len() && src[i] != '"' {
        quote_at(src, i + 1)
    } else {
        i
    }
}

/// The number of line feeds in `src` from `from` up to `to`.
pub open spec fn newlines(src: Seq<char>, from: int, to: int) -> int
    decreases to - from,
{
    if 0 <= from < to <= src.len() {
        newlines(src, from, to - 1) + if src[to - 1] == '\n' {
            1int
        } else {
            0int
        }
    } else {
        0
    }
}

/// Where a number ends whose digits are being read at `i`: after the digit
/// run, and after a further `.` and digit run where one follows.
pub open spec fn number_end(src: Seq<char>, i: int) -> int {
    let whole = digits_end(src, i);
    if follows(src, whole, '.') && whole + 1 < src.len() && numeric(src[whole + 1]) {
        digits_end(src, whole + 1)
    } else {
        whole
    }
}

/// The reserved word that `word` spells, if it spells one.
pub open spec fn keyword_of(word: Seq<char>) -> Option<TokenType> {
    if word == "and"@ {
        Some(TokenType::And)
    } else if word == "class"@ {
        Some(TokenType::Class)
    } else if word == "else"@ {
        Some(TokenType::Else)
    } else if word == "false"@ {
        Some(TokenType::False)
    } else if word == "for"@ {
        Some(TokenType::For)
    } else if word == "fun"@ {
        Some(TokenType::Fun)
    } else if word == "if"@ {
        Some(TokenType::If)
    } else if word == "nil"@ {
        Some(TokenType::Nil)
    } else if word == "or"@ {
        Some(TokenType::Or)
    } else if word == "print"@ {
        Some(TokenType::Print)
    } else if word == "return"@ {
        Some(TokenType::Return)
    } else if word == "super"@ {
        Some(TokenType::Super)
    } else if word == "this"@ {
        Some(TokenType::This)
    } else if word == "true"@ {
        Some(TokenType::True)
    } else if word == "var"@ {
        Some(TokenType::Var)
    } else if word == "while"@ {
        Some(TokenType::While)
    } else {
        None
    }
}

/// The kind of the identifier or reserved word `word`.
pub open spec fn word_type(word: Seq<char>) -> TokenType {
    match keyword_of(word) {
        Some(ttype) => ttype,
        None => TokenType::Ident,
    }
}

/// What one scanning step finds.
pub enum Found {
    /// A token of the given kind.
    Token(TokenType),
    /// White space or a comment.
    Nothing,
    /// A lexical error.
    Error(LexicalErrorKind),
}

/// One scanning step: where it ends, the line counter after it, and what it
/// found between its start and its end.
pub struct Step {
    pub end: int,
    pub line: int,
    pub found: Found,
}

/// A step that reads a token of one or two characters.
pub open spec fn token_step(end: int, line: int, ttype: TokenType) -> Step {
    Step { end, line, found: Found::Token(ttype) }
}

/// A step over an operator that a `=` may extend.
pub open spec fn operator_step(
    src: Seq<char>,
    start: int,
    line: int,
    long: TokenType,
    short: TokenType,
) -> Step {
    if follows(src, start + 1, '=') {
        token_step(start + 2, line, long)
    } else {
        token_step(start + 1, line, short)
    }
}

/// A step over a string literal whose opening quote is at `start`.
///
/// The line counter moves on by the line feeds inside the literal; a token
/// carries the line of its closing quote.
pub open spec fn string_step(src: Seq<char>, start: int, line: int) -> Step {
    let close = quote_at(src, start + 1);
    let after = line + newlines(src, start + 1, close);
    if close < src.len() {
        Step { end: close + 1, line: after, found: Found::Token(TokenType::String) }
    } else {
        Step { end: close, line: after, found: Found::Error(LexicalErrorKind::UnterminatedString) }
    }
}

/// A step that starts at a `/`: a line comment, a block comment or the
/// division operator.
pub open spec fn slash_step(src: Seq<char>, start: int, line: int) -> Step {
    if follows(src, start + 1, '/') {
        Step { end: line_end(src, start + 2), line, found: Found::Nothing }
    } else if follows(src, start + 1, '*') {
        Step { end: comment_end(src, start + 2), line, found: Found::Nothing }
    } else {
        token_step(start + 1, line, TokenType::Slash)
    }
}

/// The scanning step that starts at position `start` of `src`, with the line
/// counter at `line`.
pub open spec fn scan_step(src: Seq<char>, start: int, line: int) -> Step
    recommends
        0 <= start < src.len(),
{
    let c = src[start];
    let next = start + 1;
    if c == '(' {
        token_step(next, line, TokenType::LeftParen)
    } else if c == ')' {
        token_step(next, line, TokenType::RightParen)
    } else if c == '{' {
        token_step(next, line, TokenType::LeftBrace)
    } else if c == '}' {
        token_step(next, line, TokenType::RightBrace)
    } else if c == ',' {
        token_step(next, line, TokenType::Comma)
    } else if c == '.' {
        token_step(next, line, TokenType::Dot)
    } else if c == '-' {
        token_step(next, line, TokenType::Minus)
    } else if c == '+' {
        token_step(next, line, TokenType::Plus)
    } else if c == ';' {
        token_step(next, line, TokenType::SemiColon)
    } else if c == '*' {
        token_step(next, line, TokenType::Star)
    } else if c == '^' {
        token_step(next, line, TokenType::Exponent)
    } else if c == '!' {
        operator_step(src, start, line, TokenType::BangEqual, TokenType::Bang)
    } else if c == '=' {
        operator_step(src, start, line, TokenType::Equals, TokenType::Assign)
    } else if c == '<' {
        operator_step(src, start, line, TokenType::LessEqual, TokenType::Less)
    } else if c == '>' {
        operator_step(src, start, line, TokenType::GreaterEqual, TokenType::Greater)
    } else if c == '/' {
        slash_step(src, start, line)
    } else if c == ' ' || c == '\r' || c == '\t' {
        Step { end: next, line, found: Found::Nothing }
    } else if c == '\n' {
        Step { end: next, line: line + 1, found: Found::Nothing }
    } else if c == '"' {
        string_step(src, start, line)
    } else if numeric(c) {
        token_step(number_end(src, next), line, TokenType::Number)
    } else if alpha(c) {
        let end = word_end(src, next);
        token_step(end, line, word_type(src.subrange(start, end)))
    } else {
        Step { end: next, line, found: Found::Error(LexicalErrorKind::UnexpectedCharacter) }
    }
}

/// Each of the run functions ends at or after its start and within `src`.
pub proof fn lemma_runs_bounded(src: Seq<char>, i: int)
    requires
        0 <= i <= src.len(),
    ensures
        i <= digits_end(src, i) <= src.len(),
        i <= word_end(src, i) <= src.len(),
        i <= line_end(src, i) <= src.len(),
        i <= comment_end(src, i) <= src.len(),
        i <= quote_at(src, i) <= src.len(),
    decreases src.len() - i,
{
    if i < src.len() {
        lemma_runs_bounded(src, i + 1);
    }
}

/// Line feeds are counted once each: the count is never negative and never
/// exceeds the width of the range.
pub proof fn lemma_newlines_bounded(src: Seq<char>, from: int, to: int)
    requires
        0 <= from <= to <= src.len(),
    ensures
        0 <= newlines(src, from, to) <= to - from,
    decreases to - from,
{
    if from < to {
        lemma_newlines_bounded(src, from, to - 1);
    }
}

/// Every step consumes at least one character, stays within the source, and
/// moves the line counter on by no more than it consumes.
pub proof fn lemma_step_advances(src: Seq<char>, start: int, line: int)
    requires
        0 <= start < src.len(),
    ensures
        start < scan_step(src, start, line).end <= src.len(),
        line <= scan_step(src, start, line).line <= line + (scan_step(src, start, line).end
            - start),
{
    lemma_runs_bounded(src, start + 1);
    if start + 2 <= src.len() {
        lemma_runs_bounded(src, start + 2);
    }
    let whole = digits_end(src, start + 1);
    if whole + 1 <= src.len() {
        lemma_runs_bounded(src, whole + 1);
    }
    let close = quote_at(src, start + 1);
    lemma_newlines_bounded(src, start + 1, close);
}

/// A token as the scanner finds it: its kind, the range of `src` that is its
/// lexeme, and its line.
pub struct Lexeme {
    pub ttype: TokenType,
    pub start: int,
    pub end: int,
    pub line: int,
}

/// The tokens found from position `pos` of `src` on, with the line counter at
/// `line`, and the end marker after them.
pub open spec fn lexemes_from(src: Seq<char>, pos: int, line: int) -> Seq<Lexeme>
    decreases src.len() - pos,
{
    if 0 <= pos < src.len() {
        let step = scan_step(src, pos, line);
        proof {
            lemma_step_advances(src, pos, line);
        }
        let rest = lexemes_from(src, step.end, step.line);
        match step.found {
            Found::Token(ttype) => seq![
                Lexeme { ttype, start: pos, end: step.end, line: step.line },
            ] + rest,
            _ => rest,
        }
    } else {
        seq![
            Lexeme {
                ttype: TokenType::Eof,
                start: src.len() as int,
                end: src.len() as int,
                line,
            },
        ]
    }
}

/// A lexical error as the scanner finds it.
///
/// An unexpected character is reported at the line it stands on, an
/// unterminated string at the line of its opening quote; `offset` is the
/// position at which scanning went on.
pub struct Fault {
    pub kind: LexicalErrorKind,
    pub line: int,
    pub offset: int,
}

/// The lexical errors found from position `pos` of `src` on, with the line
/// counter at `line`.
pub open spec fn faults_from(src: Seq<char>, pos: int, line: int) -> Seq<Fault>
    decreases src.len() - pos,
{
    if 0 <= pos < src.len() {
        let step = scan_step(src, pos, line);
        proof {
            lemma_step_advances(src, pos, line);
        }
        let rest = faults_from(src, step.end, step.line);
        match step.found {
            Found::Error(kind) => seq![Fault { kind, line, offset: step.end }] + rest,
            _ => rest,
        }
    } else {
        seq![]
    }
}

/// The tokens of `src`.
pub open spec fn lexemes(src: Seq<char>) -> Seq<Lexeme> {
    lexemes_from(src, 0, 1)
}

/// The lexical errors of `src`.
pub open spec fn faults(src: Seq<char>) -> Seq<Fault> {
    faults_from(src, 0, 1)
}

/// Every character of `s` from `from` up to `to` is a digit.
pub open spec fn all_numeric(s: Seq<char>, from: int, to: int) -> bool {
    forall|i: int| from <= i < to ==> numeric(#[trigger] s[i])
}

/// `s` is one or more digits, or that followed by a point and one or more
/// digits: the text of a number token.
pub open spec fn decimal_literal(s: Seq<char>) -> bool {
    exists|whole: int|
        0 < whole <= s.len() && #[trigger] all_numeric(s, 0, whole) && (whole == s.len() || (s[whole]
            == '.' && whole + 1 < s.len() && all_numeric(s, whole + 1, s.len() as int)))
}

/// `bits` is an encoding that `to_number` gives for the text `digits`.
pub open spec fn reads_as<P: Fn(&str) -> u64>(to_number: P, digits: Seq<char>, bits: u64) -> bool {
    exists|text: &str| text@ == digits && #[trigger] call_ensures(to_number, (text,), bits)
}

/// `token` is the token that the scanner makes of `lexeme`: kind, text and
/// line are the lexeme's; a string carries the text between its quotes, a
/// number an encoding that `to_number` gave for its text, no other token a
/// literal.
pub open spec fn token_matches<P: Fn(&str) -> u64>(
    token: Token,
    lexeme: Lexeme,
    src: Seq<char>,
    to_number: P,
) -> bool {
    &&& token.ttype == lexeme.ttype
    &&& token.lexeme@ == src.subrange(lexeme.start, lexeme.end)
    &&& token.line == lexeme.line
    &&& match lexeme.ttype {
        TokenType::String => token.literal matches Some(Object::Str(s)) && s@ == src.subrange(
            lexeme.start + 1,
            lexeme.end - 1,
        ),
        TokenType::Number => token.literal matches Some(Object::Num(bits)) && reads_as(
            to_number,
            token.lexeme@,
            bits,
        ),
        _ => token.literal is None,
    }
}

/// `tokens` are the tokens that the scanner makes of `lexemes`, one for one.
pub open spec fn tokens_match<P: Fn(&str) -> u64>(
    tokens: Seq<Token>,
    lexemes: Seq<Lexeme>,
    src: Seq<char>,
    to_number: P,
) -> bool {
    &&& tokens.len() == lexemes.len()
    &&& forall|i: int|
        0 <= i < tokens.len() ==> token_matches(#[trigger] tokens[i], lexemes[i], src, to_number)
}

/// `errors` record `faults`, one for one.
pub open spec fn errors_match(errors: Seq<LexicalError>, faults: Seq<Fault>) -> bool {
    &&& errors.len() == faults.len()
    &&& forall|i: int|
        0 <= i < errors.len() ==> {
            &&& (#[trigger] errors[i]).kind == faults[i].kind
            &&& errors[i].line == faults[i].line
            &&& errors[i].offset == faults[i].offset
        }
}

/// No scanning step finds an end marker: only the end of the source gives
/// one.
pub proof fn lemma_step_finds_no_end(src: Seq<char>, start: int, line: int)
    requires
        0 <= start < src.len(),
    ensures
        scan_step(src, start, line).found != Found::Token(TokenType::Eof),
{
}

/// The tokens of a scan are closed by exactly one end marker: the last token
/// is the end marker and no token before it is.
pub proof fn lemma_lexemes_end(src: Seq<char>, pos: int, line: int)
    requires
        0 <= pos,
    ensures
        lexemes_from(src, pos, line).len() >= 1,
        lexemes_from(src, pos, line).last().ttype == TokenType::Eof,
        forall|i: int|
            0 <= i < lexemes_from(src, pos, line).len() - 1 ==> (#[trigger] lexemes_from(
                src,
                pos,
                line,
            )[i]).ttype != TokenType::Eof,
    decreases src.len() - pos,
{
    if pos < src.len() {
        let step = scan_step(src, pos, line);
        lemma_step_advances(src, pos, line);
        lemma_step_finds_no_end(src, pos, line);
        lemma_lexemes_end(src, step.end, step.line);
    }
}

/// The lines of the tokens of a scan never decrease, and none is before the
/// line that the scan starts on.
pub proof fn lemma_lexeme_lines_ordered(src: Seq<char>, pos: int, line: int)
    requires
        0 <= pos,
    ensures
        forall|i: int|
            0 <= i < lexemes_from(src, pos, line).len() ==> line <= (#[trigger] lexemes_from(
                src,
                pos,
                line,
            )[i]).line,
        forall|i: int, j: int|
            0 <= i <= j < lexemes_from(src, pos, line).len() ==> (#[trigger] lexemes_from(
                src,
                pos,
                line,
            )[i]).line <= (#[trigger] lexemes_from(src, pos, line)[j]).line,
    decreases src.len() - pos,
{
    if pos < src.len() {
        let step = scan_step(src, pos, line);
        lemma_step_advances(src, pos, line);
        lemma_lexeme_lines_ordered(src, step.end, step.line);
    }
}

/// The tokens of a scan stand in the source in their order: each lexeme but
/// the end marker is a range of one or more characters of the source, and
/// each starts where the one before it ends, or later. The end marker is the
/// empty range at the end of the source.
pub proof fn lexemes_stand_in_order(src: Seq<char>, pos: int, line: int)
    requires
        0 <= pos <= src.len(),
    ensures
        forall|i: int|
            0 <= i < lexemes_from(src, pos, line).len() ==> pos <= (#[trigger] lexemes_from(
                src,
                pos,
                line,
            )[i]).start <= lexemes_from(src, pos, line)[i].end <= src.len(),
        forall|i: int|
            0 <= i < lexemes_from(src, pos, line).len() - 1 ==> (#[trigger] lexemes_from(
                src,
                pos,
                line,
            )[i]).start < lexemes_from(src, pos, line)[i].end,
        forall|i: int, j: int|
            0 <= i < j < lexemes_from(src, pos, line).len() ==> (#[trigger] lexemes_from(
                src,
                pos,
                line,
            )[i]).end <= (#[trigger] lexemes_from(src, pos, line)[j]).start,
        lexemes_from(src, pos, line).last().start == src.len(),
        lexemes_from(src, pos, line).last().end == src.len(),
    decreases src.len() - pos,
{
    if pos < src.len() {
        let step = scan_step(src, pos, line);
        lemma_step_advances(src, pos, line);
        lexemes_stand_in_order(src, step.end, step.line);
        lemma_lexemes_end(src, step.end, step.line);
    }
}

/// Where no double quote stands from `i` on, the search for one ends at the
/// end of the source.
pub proof fn lemma_no_quote(src: Seq<char>, i: int)
    requires
        0 <= i <= src.len(),
        forall|k: int| i <= k < src.len() ==> src[k] != '"',
    ensures
        quote_at(src, i) == src.len(),
    decreases src.len() - i,
{
    if i < src.len() {
        lemma_no_quote(src, i + 1);
    }
}

/// An unterminated string literal yields exactly one lexical error, attributed
/// to the line on which the string opened.
///
/// Where a scanning step starts at a double quote that no later double quote
/// closes, the scan from there on reports that one error and no other, at the
/// line that the scan had come to at the opening quote, and finds no token
/// but the end marker.
pub proof fn unterminated_string_reported_once(src: Seq<char>, pos: int, line: int)
    requires
        0 <= pos < src.len(),
        src[pos] == '"',
        forall|k: int| pos < k < src.len() ==> src[k] != '"',
    ensures
        faults_from(src, pos, line) == seq![
            Fault {
                kind: LexicalErrorKind::UnterminatedString,
                line,
                offset: src.len() as int,
            },
        ],
        lexemes_from(src, pos, line).len() == 1,
{
    lemma_no_quote(src, pos + 1);
    let step = scan_step(src, pos, line);
    assert(faults_from(src, step.end, step.line) =~= Seq::<Fault>::empty());
    assert(lexemes_from(src, pos, line) == lexemes_from(src, step.end, step.line));
}

/// The tokens of a scan can be parsed: the end marker closes them, and every
/// number and string token carries its literal.
pub proof fn scanned_is_well_formed<P: Fn(&str) -> u64>(
    tokens: Seq<Token>,
    src: Seq<char>,
    to_number: P,
)
    requires
        tokens_match(tokens, lexemes(src), src, to_number),
    ensures
        well_formed(tokens),
{
    lemma_lexemes_end(src, 0, 1);
}

/// The lines of the tokens of a scan never decrease.
pub proof fn scanned_lines_ordered<P: Fn(&str) -> u64>(
    tokens: Seq<Token>,
    src: Seq<char>,
    to_number: P,
)
    requires
        tokens_match(tokens, lexemes(src), src, to_number),
    ensures
        forall|i: int, j: int|
            0 <= i <= j < tokens.len() ==> (#[trigger] tokens[i]).line <= (#[trigger] tokens[j]).line,
{
    lemma_lexeme_lines_ordered(src, 0, 1);
}

/// Every encoding that `to_number` gives is the one that `value` names.
pub open spec fn reads_numbers<P: Fn(&str) -> u64>(
    to_number: P,
    value: spec_fn(Seq<char>) -> u64,
) -> bool {
    forall|text: &str, bits: u64| #[trigger]
        call_ensures(to_number, (text,), bits) ==> bits == value(text@)
}

/// The content of the token that the scanner makes of `lexeme` where `value`
/// names the encoding of a number.
pub open spec fn token_under(value: spec_fn(Seq<char>) -> u64, lexeme: Lexeme, src: Seq<char>)
    -> TokenView {
    let text = src.subrange(lexeme.start, lexeme.end);
    TokenView {
        ttype: lexeme.ttype,
        lexeme: text,
        literal: if lexeme.ttype == TokenType::String {
            Some(ObjectView::Str(src.subrange(lexeme.start + 1, lexeme.end - 1)))
        } else if lexeme.ttype == TokenType::Number {
            Some(ObjectView::Num(value(text)))
        } else {
            None
        },
        line: lexeme.line as usize,
    }
}

/// A source has one scan: where every encoding that `to_number` gives is the
/// one that `value` names, the tokens of a scan have the content that their
/// lexemes have under `value`.
pub proof fn scan_follows_numbers<P: Fn(&str) -> u64>(
    tokens: Seq<Token>,
    src: Seq<char>,
    to_number: P,
    value: spec_fn(Seq<char>) -> u64,
)
    requires
        reads_numbers(to_number, value),
        tokens_match(tokens, lexemes(src), src, to_number),
    ensures
        forall|i: int|
            0 <= i < tokens.len() ==> (#[trigger] tokens[i])@ == token_under(
                value,
                lexemes(src)[i],
                src,
            ),
{
}

} // verus!
