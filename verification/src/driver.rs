//! One run of a source text through the scanner, the parser and the
//! evaluator.

use vstd::prelude::*;
use crate::error::{lexical_message, parse_error_text, report_text, LexicalError};
use crate::expr::Expr;
use crate::grammar::{parse_expression, parse_is_the_reading, reads, Parsed, SyntaxError, EQUALITY};
use crate::interpreter::{interprets, Interpreter, RuntimeError, RuntimeErrorKind};
use crate::lexical::{
    decimal_literal,
    errors_match,
    faults,
    lexemes,
    tokens_match,
};
use crate::number::ArithOp;
use crate::parser::{syntax_message, Parser};
use crate::scanner::Scanner;
use crate::semantics::{
    agrees,
    arithmetic_is_evaluated_as_written,
    arithmetic_only,
    arithmetic_value,
    evaluates,
    failure,
    rounds,
    Outcome,
};
use crate::text::decimal_text;
use crate::token::{ObjectView, Token};

verus! {

/// What one run over a source text gives: the text of the value, where the
/// source was evaluated to one, and the reports of the errors, in order.
#[derive(Debug, PartialEq)]
pub struct Run {
    pub output: Option<String>,
    pub reports: Vec<String>,
}

/// The report of the lexical error `error`.
pub open spec fn lexical_report(error: LexicalError) -> Seq<char> {
    report_text(error.line, decimal_text(error.offset as nat), lexical_message(error.kind))
}

/// The reports of the lexical errors `errors`, in order.
pub open spec fn lexical_reports(errors: Seq<LexicalError>) -> Seq<Seq<char>> {
    Seq::new(errors.len(), |i: int| lexical_report(errors[i]))
}

/// The texts of `strings`, in order.
pub open spec fn texts(strings: Seq<String>) -> Seq<Seq<char>> {
    Seq::new(strings.len(), |i: int| strings[i]@)
}

/// `run` is what a run gives that scanned with the lexical errors `errors`
/// and came to show `rendered`: the text of the value and the lexical
/// reports, or no text and the lexical reports followed by that of the
/// runtime error.
pub open spec fn concludes(
    rendered: Result<String, String>,
    errors: Seq<LexicalError>,
    run: Run,
) -> bool {
    match rendered {
        Ok(text) => {
            &&& run.output == Some(text)
            &&& texts(run.reports@) == lexical_reports(errors)
        },
        Err(report) => {
            &&& run.output is None
            &&& texts(run.reports@) == lexical_reports(errors).push(report@)
        },
    }
}

/// `run` is what a run gives that scanned with the lexical errors `errors`
/// and parsed `expr`.
pub open spec fn evaluated<A: Fn(ArithOp, u64, u64) -> u64, S: Fn(u64) -> String>(
    arith: A,
    show: S,
    expr: Expr,
    errors: Seq<LexicalError>,
    run: Run,
) -> bool {
    exists|rendered: Result<String, String>|
        interprets(arith, show, expr, rendered) && #[trigger] concludes(rendered, errors, run)
}

/// `run` is what a run gives that scanned `tokens` with the lexical errors
/// `errors`: where the tokens do not parse, no text and the lexical reports
/// followed by that of the syntax error; else what the evaluation of the
/// parsed expression gives.
pub open spec fn ran<A: Fn(ArithOp, u64, u64) -> u64, S: Fn(u64) -> String>(
    arith: A,
    show: S,
    tokens: Seq<Token>,
    errors: Seq<LexicalError>,
    run: Run,
) -> bool {
    match parse_expression(tokens, 0) {
        Ok(parsed) => evaluated(arith, show, parsed.expr, errors, run),
        Err(error) => {
            &&& run.output is None
            &&& texts(run.reports@) == lexical_reports(errors).push(
                parse_error_text(tokens[error.at as int], syntax_message(error.kind)),
            )
        },
    }
}

/// `run` is what a run over `src` gives: the source is scanned, its tokens
/// are parsed whatever lexical errors there were, and the parsed expression
/// is evaluated.
pub open spec fn runs<
    P: Fn(&str) -> u64,
    A: Fn(ArithOp, u64, u64) -> u64,
    S: Fn(u64) -> String,
>(to_number: P, arith: A, show: S, src: Seq<char>, run: Run) -> bool {
    exists|tokens: Seq<Token>, errors: Seq<LexicalError>|
        tokens_match(tokens, lexemes(src), src, to_number) && errors_match(errors, faults(src))
            && #[trigger] ran(arith, show, tokens, errors, run)
}

/// Runs `source` through the scanner, the parser and the evaluator.
///
/// `to_number` converts the text of a number token to its encoding, `arith`
/// performs the rounding operations and `show` gives the text of a number.
pub fn run<P: Fn(&str) -> u64, A: Fn(ArithOp, u64, u64) -> u64, S: Fn(u64) -> String>(
    source: &str,
    to_number: P,
    arith: A,
    show: S,
) -> (r: Run)
    requires
        source@.len() < usize::MAX,
        forall|text: &str| decimal_literal(text@) ==> call_requires(to_number, (text,)),
        rounds(arith),
        forall|bits: u64| call_requires(show, (bits,)),
    ensures
        runs(to_number, arith, show, source@, r),
{
    let scanned = Scanner::new(source, to_number).scan_tokens();
    let ghost tokens = scanned.tokens@;
    let ghost errors = scanned.errors@;
    let mut reports: Vec<String> = Vec::new();
    let mut i: usize = 0;
    while i < scanned.errors.len()
        invariant
            i <= scanned.errors@.len(),
            scanned.errors@ == errors,
            reports@.len() == i,
            forall|k: int| 0 <= k < i ==> (#[trigger] reports@[k])@ == lexical_report(errors[k]),
        decreases scanned.errors@.len() - i,
    {
        reports.push(scanned.errors[i].report());
        i += 1;
    }
    assert(texts(reports@) =~= lexical_reports(errors));
    let mut parser = Parser::new(scanned.tokens);
    let run = match parser.parse() {
        Some(expr) => {
            let interpreter = Interpreter::new(arith);
            let rendered = interpreter.interpret(expr, &show);
            let ghost shown = rendered;
            let run = match rendered {
                Ok(text) => Run { output: Some(text), reports },
                Err(report) => {
                    let ghost before = reports@;
                    reports.push(report);
                    assert(texts(reports@) =~= texts(before).push(report@));
                    Run { output: None, reports }
                },
            };
            assert(concludes(shown, errors, run));
            run
        },
        None => {
            let ghost before = reports@;
            let found = parser.errors();
            reports.push(found[found.len() - 1].report());
            assert(texts(reports@) =~= texts(before).push(reports@.last()@));
            Run { output: None, reports }
        },
    };
    assert(ran(arith, show, tokens, errors, run));
    run
}

/// Arithmetic follows precedence: where the tokens from `pos` on read as an
/// expression built from numbers, `+`, `-`, `*`, `/`, `^` and groups, with
/// `^` grouping before `*` and `/`, those before `+` and `-`, and operators
/// of one level grouping from the left, the parser gives that expression, and
/// its evaluation comes to the number that it stands for, or to the
/// divide-by-zero error at the first `/` whose divisor is zero.
pub proof fn arithmetic_follows_precedence<A: Fn(ArithOp, u64, u64) -> u64>(
    arith: A,
    exact: spec_fn(ArithOp, u64, u64) -> u64,
    tokens: Seq<Token>,
    pos: nat,
    parsed: Parsed,
    out: Outcome,
)
    requires
        agrees(arith, exact),
        reads(parsed, tokens, pos, EQUALITY),
        arithmetic_only(parsed.expr),
        evaluates(arith, parsed.expr, out),
    ensures
        parse_expression(tokens, pos) == Ok::<Parsed, SyntaxError>(parsed),
        out == match arithmetic_value(exact, parsed.expr) {
            Ok(number) => Ok::<ObjectView, RuntimeError>(ObjectView::Num(number)),
            Err(slash) => failure(RuntimeErrorKind::DivideByZero, slash),
        },
{
    parse_is_the_reading(tokens, pos, parsed);
    arithmetic_is_evaluated_as_written(arith, exact, parsed.expr, out);
}

} // verus!
