use rlox::error::{LexicalError, LexicalErrorKind, Lox};
use rlox::text::{chars_of, decimal, spells, string_of};
use rlox::token::{Object, Token};
use rlox::token_type::TokenType;

fn show(bits: u64) -> String {
    f64::from_bits(bits).to_string()
}

#[test]
fn error_keeps_line_and_message() {
    let error = Lox::error(12, "Something.".to_string());
    assert_eq!(error.line, 12);
    assert_eq!(error.message, "Something.");
    assert_eq!(error, Lox { line: 12, message: "Something.".to_string() });
}

#[test]
fn report_names_line_location_and_message() {
    let error = Lox::error(3, "Unexpected character.".to_string());
    assert_eq!(error.report("12"), "[line 3] Error chars [12] : Unexpected character.");
    assert_eq!(Lox::error(0, String::new()).report(""), "[line 0] Error chars [] : ");
}

#[test]
fn parse_error_at_a_token() {
    let token = Token::new(TokenType::Star, "*".to_string(), None, 7);
    assert_eq!(
        Lox::parse_error(&token, "expect expression".to_string()),
        "[line 7] Error chars [ at '*'] : expect expression"
    );
}

#[test]
fn parse_error_at_the_end() {
    let token = Token::new(TokenType::Eof, String::new(), None, 21);
    assert_eq!(
        Lox::parse_error(&token, "expect expression".to_string()),
        "[line 21] Error chars [at end.] : expect expression"
    );
}

#[test]
fn runtime_error_names_message_and_line() {
    let token = Token::new(TokenType::Slash, "/".to_string(), None, 104);
    assert_eq!(Lox::runtime_error(&token, "cannot divide by zero"), "cannot divide by zero\n[line 104]");
}

#[test]
fn lexical_error_messages() {
    let unexpected =
        LexicalError { kind: LexicalErrorKind::UnexpectedCharacter, line: 2, offset: 30 };
    let unterminated =
        LexicalError { kind: LexicalErrorKind::UnterminatedString, line: 5, offset: 99 };
    assert_eq!(unexpected.message(), "Unexpected character.");
    assert_eq!(unterminated.message(), "Unterminated string.");
    assert_eq!(unexpected.diagnostic(), Lox::error(2, "Unexpected character.".to_string()));
    assert_eq!(unterminated.diagnostic(), Lox::error(5, "Unterminated string.".to_string()));
    assert_eq!(unexpected.report(), "[line 2] Error chars [30] : Unexpected character.");
    assert_eq!(unterminated.report(), "[line 5] Error chars [99] : Unterminated string.");
}

#[test]
fn decimal_numerals() {
    assert_eq!(decimal(0), "0");
    assert_eq!(decimal(7), "7");
    assert_eq!(decimal(9), "9");
    assert_eq!(decimal(10), "10");
    assert_eq!(decimal(99), "99");
    assert_eq!(decimal(100), "100");
    assert_eq!(decimal(1234567890), "1234567890");
    assert_eq!(decimal(usize::MAX), usize::MAX.to_string());
}

#[test]
fn string_of_a_range_of_characters() {
    let chars: Vec<char> = "hello w\u{f6}rld".chars().collect();
    assert_eq!(string_of(&chars, 0, chars.len()), "hello w\u{f6}rld");
    assert_eq!(string_of(&chars, 6, 11), "w\u{f6}rld");
    assert_eq!(string_of(&chars, 1, 2), "e");
    assert_eq!(string_of(&chars, 3, 3), "");
}

#[test]
fn chars_of_a_string() {
    assert_eq!(chars_of(""), Vec::<char>::new());
    assert_eq!(chars_of("a\u{e9}\u{4e16}!"), vec!['a', '\u{e9}', '\u{4e16}', '!']);
}

#[test]
fn spells_compares_a_range_with_a_word() {
    let chars: Vec<char> = "nil nile".chars().collect();
    assert!(spells(&chars, 0, 3, "nil"));
    assert!(spells(&chars, 4, 7, "nil"));
    assert!(!spells(&chars, 4, 8, "nil"));
    assert!(spells(&chars, 4, 8, "nile"));
    assert!(!spells(&chars, 0, 3, "nib"));
    assert!(!spells(&chars, 0, 2, "nil"));
    assert!(spells(&chars, 2, 2, ""));
}

#[test]
fn text_of_a_value() {
    assert_eq!(Object::Num(7.0_f64.to_bits()).to_text(&show), "7");
    assert_eq!(Object::Num(2.5_f64.to_bits()).to_text(&show), "2.5");
    assert_eq!(Object::Num((-0.125_f64).to_bits()).to_text(&show), "-0.125");
    assert_eq!(Object::Str("a b".to_string()).to_text(&show), "a b");
    assert_eq!(Object::Str(String::new()).to_text(&show), "");
    assert_eq!(Object::Boolean(true).to_text(&show), "true");
    assert_eq!(Object::Boolean(false).to_text(&show), "false");
    assert_eq!(Object::Nil.to_text(&show), "nil");
}

#[test]
fn text_of_a_number_drops_a_final_point_zero() {
    fn debug(bits: u64) -> String {
        format!("{:?}", f64::from_bits(bits))
    }
    assert_eq!(debug(7.0_f64.to_bits()), "7.0");
    assert_eq!(Object::Num(7.0_f64.to_bits()).to_text(&debug), "7");
    assert_eq!(Object::Num(10.0_f64.to_bits()).to_text(&debug), "10");
    assert_eq!(Object::Num(7.5_f64.to_bits()).to_text(&debug), "7.5");
    assert_eq!(Object::Num(0.0_f64.to_bits()).to_text(&debug), "0");
    fn fixed(bits: u64) -> String {
        match bits {
            0 => ".0".to_string(),
            1 => "0".to_string(),
            2 => "1.00".to_string(),
            _ => "1.0.0".to_string(),
        }
    }
    assert_eq!(Object::Num(0).to_text(&fixed), "");
    assert_eq!(Object::Num(1).to_text(&fixed), "0");
    assert_eq!(Object::Num(2).to_text(&fixed), "1.00");
    assert_eq!(Object::Num(3).to_text(&fixed), "1.0");
}

#[test]
fn a_string_value_is_never_stripped() {
    assert_eq!(Object::Str("7.0".to_string()).to_text(&show), "7.0");
}

#[test]
fn text_of_a_token() {
    let number = Token::new(
        TokenType::Number,
        "1.50".to_string(),
        Some(Object::Num(1.5_f64.to_bits())),
        1,
    );
    assert_eq!(number.to_text(&show), "{ Token: Number   Lexeme: 1.50   Literal: 1.5 }");
    let string = Token::new(
        TokenType::String,
        "\"hi\"".to_string(),
        Some(Object::Str("hi".to_string())),
        1,
    );
    assert_eq!(string.to_text(&show), "{ Token: String   Lexeme: \"hi\"   Literal: hi }");
    let plus = Token::new(TokenType::Plus, "+".to_string(), None, 1);
    assert_eq!(plus.to_text(&show), "{ Token: Plus   Lexeme: +   Literal: None }");
    let end = Token::new(TokenType::Eof, String::new(), None, 9);
    assert_eq!(end.to_text(&show), "{ Token: Eof   Lexeme:    Literal: None }");
}

#[test]
fn names_of_the_kinds() {
    let kinds = [
        TokenType::LeftParen,
        TokenType::RightParen,
        TokenType::LeftBrace,
        TokenType::RightBrace,
        TokenType::Comma,
        TokenType::Dot,
        TokenType::Minus,
        TokenType::Plus,
        TokenType::SemiColon,
        TokenType::Slash,
        TokenType::Star,
        TokenType::Exponent,
        TokenType::Bang,
        TokenType::BangEqual,
        TokenType::Assign,
        TokenType::Equals,
        TokenType::Greater,
        TokenType::GreaterEqual,
        TokenType::Less,
        TokenType::LessEqual,
        TokenType::Ident,
        TokenType::String,
        TokenType::Number,
        TokenType::And,
        TokenType::Class,
        TokenType::Else,
        TokenType::False,
        TokenType::Fun,
        TokenType::For,
        TokenType::If,
        TokenType::Nil,
        TokenType::Or,
        TokenType::Print,
        TokenType::Return,
        TokenType::Super,
        TokenType::This,
        TokenType::True,
        TokenType::Var,
        TokenType::While,
        TokenType::Eof,
    ];
    for kind in kinds {
        assert_eq!(kind.name(), format!("{:?}", kind));
    }
}

#[test]
fn a_token_keeps_what_it_is_made_of() {
    let token = Token::new(
        TokenType::Number,
        "2".to_string(),
        Some(Object::Num(2.0_f64.to_bits())),
        4,
    );
    assert_eq!(token.ttype, TokenType::Number);
    assert_eq!(token.lexeme, "2");
    assert_eq!(token.literal, Some(Object::Num(2.0_f64.to_bits())));
    assert_eq!(token.line, 4);
    assert_eq!(token.clone(), token);
}

#[test]
fn a_value_equals_its_clone() {
    for value in [
        Object::Num(1.5_f64.to_bits()),
        Object::Str("s".to_string()),
        Object::Boolean(true),
        Object::Nil,
    ] {
        assert_eq!(value.clone(), value);
    }
}
