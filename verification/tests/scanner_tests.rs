use rlox::error::{LexicalError, LexicalErrorKind};
use rlox::scanner::{is_alpha, is_alpha_numeric, is_numeric, keyword, Scanned, Scanner};
use rlox::token::{Object, Token};
use rlox::token_type::TokenType;

fn to_number(text: &str) -> u64 {
    text.parse::<f64>().unwrap().to_bits()
}

fn scan(source: &str) -> Scanned {
    Scanner::new(source, to_number).scan_tokens()
}

fn kinds(source: &str) -> Vec<TokenType> {
    scan(source).tokens.iter().map(|t| t.ttype).collect()
}

fn token(ttype: TokenType, lexeme: &str, literal: Option<Object>, line: usize) -> Token {
    Token::new(ttype, lexeme.to_string(), literal, line)
}

fn num(value: f64) -> Option<Object> {
    Some(Object::Num(value.to_bits()))
}

#[test]
fn empty_source_gives_the_end_marker_alone() {
    let scanned = scan("");
    assert_eq!(scanned.tokens, vec![token(TokenType::Eof, "", None, 1)]);
    assert!(scanned.errors.is_empty());
}

#[test]
fn single_character_tokens() {
    assert_eq!(
        kinds("(){},.-+;*^"),
        vec![
            TokenType::LeftParen,
            TokenType::RightParen,
            TokenType::LeftBrace,
            TokenType::RightBrace,
            TokenType::Comma,
            TokenType::Dot,
            TokenType::Minus,
            TokenType::Plus,
            TokenType::SemiColon,
            TokenType::Star,
            TokenType::Exponent,
            TokenType::Eof,
        ]
    );
}

#[test]
fn operators_take_a_following_equals_sign() {
    assert_eq!(
        kinds("! != = == < <= > >="),
        vec![
            TokenType::Bang,
            TokenType::BangEqual,
            TokenType::Assign,
            TokenType::Equals,
            TokenType::Less,
            TokenType::LessEqual,
            TokenType::Greater,
            TokenType::GreaterEqual,
            TokenType::Eof,
        ]
    );
}

#[test]
fn three_equals_signs_are_two_tokens() {
    let scanned = scan("===");
    assert_eq!(
        scanned.tokens,
        vec![
            token(TokenType::Equals, "==", None, 1),
            token(TokenType::Assign, "=", None, 1),
            token(TokenType::Eof, "", None, 1),
        ]
    );
}

#[test]
fn slash_alone_is_the_division_operator() {
    assert_eq!(kinds("8 / 2"), vec![
        TokenType::Number,
        TokenType::Slash,
        TokenType::Number,
        TokenType::Eof,
    ]);
}

#[test]
fn line_comment_runs_to_the_end_of_the_line() {
    let scanned = scan("1 // two three\n4");
    assert_eq!(
        scanned.tokens,
        vec![
            token(TokenType::Number, "1", num(1.0), 1),
            token(TokenType::Number, "4", num(4.0), 2),
            token(TokenType::Eof, "", None, 2),
        ]
    );
}

#[test]
fn line_comment_at_the_end_of_the_source() {
    assert_eq!(kinds("1 // no line feed"), vec![TokenType::Number, TokenType::Eof]);
}

#[test]
fn block_comment_runs_to_its_closing_marker() {
    assert_eq!(kinds("1 /* 2 * 3 / 4 */ 5"), vec![
        TokenType::Number,
        TokenType::Number,
        TokenType::Eof,
    ]);
}

#[test]
fn block_comments_do_not_nest() {
    assert_eq!(kinds("/* a /* b */ c */"), vec![
        TokenType::Ident,
        TokenType::Star,
        TokenType::Slash,
        TokenType::Eof,
    ]);
}

#[test]
fn unterminated_block_comment_is_absorbed_silently() {
    let scanned = scan("1 /* never closed");
    assert_eq!(
        scanned.tokens,
        vec![token(TokenType::Number, "1", num(1.0), 1), token(TokenType::Eof, "", None, 1)]
    );
    assert!(scanned.errors.is_empty());
}

#[test]
fn block_comment_closed_by_a_star_at_the_very_end_is_unterminated() {
    let scanned = scan("/* almost *");
    assert_eq!(scanned.tokens, vec![token(TokenType::Eof, "", None, 1)]);
    assert!(scanned.errors.is_empty());
}

#[test]
fn line_feeds_in_a_block_comment_are_not_counted() {
    let scanned = scan("/* a\nb */ 1");
    assert_eq!(scanned.tokens[0], token(TokenType::Number, "1", num(1.0), 1));
}

#[test]
fn white_space_is_skipped_and_line_feeds_are_counted() {
    let scanned = scan(" \t\r\n\n 7");
    assert_eq!(
        scanned.tokens,
        vec![token(TokenType::Number, "7", num(7.0), 3), token(TokenType::Eof, "", None, 3)]
    );
}

#[test]
fn string_literal_carries_the_text_between_its_quotes() {
    let scanned = scan("\"hello\"");
    assert_eq!(
        scanned.tokens,
        vec![
            token(TokenType::String, "\"hello\"", Some(Object::Str("hello".to_string())), 1),
            token(TokenType::Eof, "", None, 1),
        ]
    );
}

#[test]
fn empty_string_literal() {
    let scanned = scan("\"\"");
    assert_eq!(
        scanned.tokens[0],
        token(TokenType::String, "\"\"", Some(Object::Str(String::new())), 1)
    );
}

#[test]
fn string_literal_keeps_characters_beyond_ascii() {
    let scanned = scan("\"h\u{e9}llo \u{4e16}\"");
    assert_eq!(scanned.tokens[0].literal, Some(Object::Str("h\u{e9}llo \u{4e16}".to_string())));
    assert_eq!(scanned.tokens[0].lexeme, "\"h\u{e9}llo \u{4e16}\"");
}

#[test]
fn line_feeds_in_a_string_are_counted() {
    let scanned = scan("\"a\nb\nc\" 1");
    assert_eq!(
        scanned.tokens,
        vec![
            token(TokenType::String, "\"a\nb\nc\"", Some(Object::Str("a\nb\nc".to_string())), 3),
            token(TokenType::Number, "1", num(1.0), 3),
            token(TokenType::Eof, "", None, 3),
        ]
    );
}

#[test]
fn unterminated_string_is_one_error_at_its_opening_line() {
    let scanned = scan("1\n\n\"abc\ndef\nghi");
    assert_eq!(
        scanned.errors,
        vec![LexicalError { kind: LexicalErrorKind::UnterminatedString, line: 3, offset: 15 }]
    );
    assert_eq!(
        scanned.tokens,
        vec![token(TokenType::Number, "1", num(1.0), 1), token(TokenType::Eof, "", None, 5)]
    );
}

#[test]
fn unterminated_string_on_the_first_line() {
    let scanned = scan("\"abc");
    assert_eq!(
        scanned.errors,
        vec![LexicalError { kind: LexicalErrorKind::UnterminatedString, line: 1, offset: 4 }]
    );
}

#[test]
fn a_lone_quote_is_an_unterminated_string() {
    let scanned = scan("\"");
    assert_eq!(
        scanned.errors,
        vec![LexicalError { kind: LexicalErrorKind::UnterminatedString, line: 1, offset: 1 }]
    );
    assert_eq!(scanned.tokens, vec![token(TokenType::Eof, "", None, 1)]);
}

#[test]
fn integer_and_fraction() {
    let scanned = scan("12 3.25 0.5");
    assert_eq!(
        scanned.tokens,
        vec![
            token(TokenType::Number, "12", num(12.0), 1),
            token(TokenType::Number, "3.25", num(3.25), 1),
            token(TokenType::Number, "0.5", num(0.5), 1),
            token(TokenType::Eof, "", None, 1),
        ]
    );
}

#[test]
fn a_point_without_a_digit_after_it_ends_the_number() {
    let scanned = scan("1.");
    assert_eq!(
        scanned.tokens,
        vec![
            token(TokenType::Number, "1", num(1.0), 1),
            token(TokenType::Dot, ".", None, 1),
            token(TokenType::Eof, "", None, 1),
        ]
    );
}

#[test]
fn a_point_before_a_digit_is_a_token_of_its_own() {
    assert_eq!(kinds(".5"), vec![TokenType::Dot, TokenType::Number, TokenType::Eof]);
}

#[test]
fn a_number_takes_one_fraction_only() {
    let scanned = scan("1.2.3");
    assert_eq!(
        scanned.tokens,
        vec![
            token(TokenType::Number, "1.2", num(1.2), 1),
            token(TokenType::Dot, ".", None, 1),
            token(TokenType::Number, "3", num(3.0), 1),
            token(TokenType::Eof, "", None, 1),
        ]
    );
}

#[test]
fn a_number_ends_where_a_letter_starts() {
    let scanned = scan("12ab");
    assert_eq!(
        scanned.tokens,
        vec![
            token(TokenType::Number, "12", num(12.0), 1),
            token(TokenType::Ident, "ab", None, 1),
            token(TokenType::Eof, "", None, 1),
        ]
    );
}

#[test]
fn the_number_reader_gets_the_text_of_the_token() {
    fn length(text: &str) -> u64 {
        text.len() as u64
    }
    let scanned = Scanner::new("1234.5 7", length).scan_tokens();
    assert_eq!(scanned.tokens[0].literal, Some(Object::Num(6)));
    assert_eq!(scanned.tokens[1].literal, Some(Object::Num(1)));
}

#[test]
fn identifiers() {
    let scanned = scan("foo _bar b4z Class");
    assert_eq!(
        scanned.tokens,
        vec![
            token(TokenType::Ident, "foo", None, 1),
            token(TokenType::Ident, "_bar", None, 1),
            token(TokenType::Ident, "b4z", None, 1),
            token(TokenType::Ident, "Class", None, 1),
            token(TokenType::Eof, "", None, 1),
        ]
    );
}

#[test]
fn reserved_words() {
    assert_eq!(
        kinds("and class else false for fun if nil or print return super this true var while"),
        vec![
            TokenType::And,
            TokenType::Class,
            TokenType::Else,
            TokenType::False,
            TokenType::For,
            TokenType::Fun,
            TokenType::If,
            TokenType::Nil,
            TokenType::Or,
            TokenType::Print,
            TokenType::Return,
            TokenType::Super,
            TokenType::This,
            TokenType::True,
            TokenType::Var,
            TokenType::While,
            TokenType::Eof,
        ]
    );
}

#[test]
fn a_reserved_word_inside_an_identifier_is_no_reserved_word() {
    assert_eq!(kinds("orchid nils _if"), vec![
        TokenType::Ident,
        TokenType::Ident,
        TokenType::Ident,
        TokenType::Eof,
    ]);
}

#[test]
fn keyword_table() {
    assert_eq!(keyword("and"), Some(TokenType::And));
    assert_eq!(keyword("class"), Some(TokenType::Class));
    assert_eq!(keyword("else"), Some(TokenType::Else));
    assert_eq!(keyword("false"), Some(TokenType::False));
    assert_eq!(keyword("for"), Some(TokenType::For));
    assert_eq!(keyword("fun"), Some(TokenType::Fun));
    assert_eq!(keyword("if"), Some(TokenType::If));
    assert_eq!(keyword("nil"), Some(TokenType::Nil));
    assert_eq!(keyword("or"), Some(TokenType::Or));
    assert_eq!(keyword("print"), Some(TokenType::Print));
    assert_eq!(keyword("return"), Some(TokenType::Return));
    assert_eq!(keyword("super"), Some(TokenType::Super));
    assert_eq!(keyword("this"), Some(TokenType::This));
    assert_eq!(keyword("true"), Some(TokenType::True));
    assert_eq!(keyword("var"), Some(TokenType::Var));
    assert_eq!(keyword("while"), Some(TokenType::While));
    assert_eq!(keyword("And"), None);
    assert_eq!(keyword("an"), None);
    assert_eq!(keyword("andy"), None);
    assert_eq!(keyword(""), None);
}

#[test]
fn character_classes() {
    assert!(is_alpha('a') && is_alpha('z') && is_alpha('A') && is_alpha('Z') && is_alpha('_'));
    assert!(!is_alpha('0') && !is_alpha(' ') && !is_alpha('\u{e9}') && !is_alpha('['));
    assert!(is_numeric('0') && is_numeric('9'));
    assert!(!is_numeric('a') && !is_numeric('/') && !is_numeric(':') && !is_numeric('\u{663}'));
    assert!(is_alpha_numeric('q') && is_alpha_numeric('5') && is_alpha_numeric('_'));
    assert!(!is_alpha_numeric('-'));
}

#[test]
fn unexpected_characters_are_reported_and_scanning_goes_on() {
    let scanned = scan("1 @ 2\n# 3");
    assert_eq!(
        scanned.errors,
        vec![
            LexicalError { kind: LexicalErrorKind::UnexpectedCharacter, line: 1, offset: 3 },
            LexicalError { kind: LexicalErrorKind::UnexpectedCharacter, line: 2, offset: 7 },
        ]
    );
    assert_eq!(
        scanned.tokens,
        vec![
            token(TokenType::Number, "1", num(1.0), 1),
            token(TokenType::Number, "2", num(2.0), 1),
            token(TokenType::Number, "3", num(3.0), 2),
            token(TokenType::Eof, "", None, 2),
        ]
    );
}

#[test]
fn a_character_beyond_ascii_is_one_unexpected_character() {
    let scanned = scan("\u{e9}");
    assert_eq!(
        scanned.errors,
        vec![LexicalError { kind: LexicalErrorKind::UnexpectedCharacter, line: 1, offset: 1 }]
    );
}

#[test]
fn errors_of_both_kinds_in_one_scan() {
    let scanned = scan("$\n\"open");
    assert_eq!(
        scanned.errors,
        vec![
            LexicalError { kind: LexicalErrorKind::UnexpectedCharacter, line: 1, offset: 1 },
            LexicalError { kind: LexicalErrorKind::UnterminatedString, line: 2, offset: 7 },
        ]
    );
}

#[test]
fn token_lines_never_decrease() {
    let scanned = scan("1\n+ \"a\nb\" /* x\ny */ 2 // c\n\n* 3");
    let lines: Vec<usize> = scanned.tokens.iter().map(|t| t.line).collect();
    assert_eq!(lines, vec![1, 2, 3, 3, 5, 5, 5]);
    assert!(lines.windows(2).all(|w| w[0] <= w[1]));
}

#[test]
fn the_end_marker_closes_every_scan() {
    for source in ["", "1", "1 +", "\"open", "@", "// c", "/* c"] {
        let scanned = scan(source);
        let last = scanned.tokens.len() - 1;
        assert_eq!(scanned.tokens[last].ttype, TokenType::Eof);
        assert_eq!(scanned.tokens[last].lexeme, "");
        assert!(scanned.tokens[..last].iter().all(|t| t.ttype != TokenType::Eof));
    }
}

#[test]
fn an_arithmetic_expression() {
    let scanned = scan("1 + 2 * 3");
    assert_eq!(
        scanned.tokens,
        vec![
            token(TokenType::Number, "1", num(1.0), 1),
            token(TokenType::Plus, "+", None, 1),
            token(TokenType::Number, "2", num(2.0), 1),
            token(TokenType::Star, "*", None, 1),
            token(TokenType::Number, "3", num(3.0), 1),
            token(TokenType::Eof, "", None, 1),
        ]
    );
}
