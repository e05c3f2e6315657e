use rlox::ast_printer::AstPrinter;
use rlox::expr::{BinaryExpr, Expr, GroupingExpr, LiteralExpr, UnaryExpr};
use rlox::grammar::SyntaxErrorKind;
use rlox::parser::{LoxParseError, Parser};
use rlox::scanner::Scanner;
use rlox::token::{Object, Token};
use rlox::token_type::TokenType;

fn to_number(text: &str) -> u64 {
    text.parse::<f64>().unwrap().to_bits()
}

fn show(bits: u64) -> String {
    f64::from_bits(bits).to_string()
}

fn tokens(source: &str) -> Vec<Token> {
    Scanner::new(source, to_number).scan_tokens().tokens
}

fn parse(source: &str) -> Result<Expr, LoxParseError> {
    let mut parser = Parser::new(tokens(source));
    match parser.parse() {
        Some(expr) => {
            assert!(parser.errors().is_empty());
            Ok(expr)
        }
        None => {
            assert_eq!(parser.errors().len(), 1);
            Err(parser.errors()[0].clone())
        }
    }
}

fn tree(source: &str) -> String {
    let expr = parse(source).expect("a syntax error");
    AstPrinter::print(&expr, &AstPrinter::new(show))
}

fn number(value: f64) -> Expr {
    Expr::Literal(LiteralExpr { value: Object::Num(value.to_bits()) })
}

fn operator(ttype: TokenType, lexeme: &str) -> Token {
    Token::new(ttype, lexeme.to_string(), None, 1)
}

fn binary(left: Expr, ttype: TokenType, lexeme: &str, right: Expr) -> Expr {
    Expr::Binary(BinaryExpr {
        left: Box::new(left),
        operator: operator(ttype, lexeme),
        right: Box::new(right),
    })
}

#[test]
fn literals() {
    assert_eq!(parse("12.5").unwrap(), number(12.5));
    assert_eq!(
        parse("\"hi\"").unwrap(),
        Expr::Literal(LiteralExpr { value: Object::Str("hi".to_string()) })
    );
    assert_eq!(parse("true").unwrap(), Expr::Literal(LiteralExpr { value: Object::Boolean(true) }));
    assert_eq!(
        parse("false").unwrap(),
        Expr::Literal(LiteralExpr { value: Object::Boolean(false) })
    );
    assert_eq!(parse("nil").unwrap(), Expr::Literal(LiteralExpr { value: Object::Nil }));
}

#[test]
fn product_binds_tighter_than_sum() {
    assert_eq!(
        parse("1 + 2 * 3").unwrap(),
        binary(
            number(1.0),
            TokenType::Plus,
            "+",
            binary(number(2.0), TokenType::Star, "*", number(3.0)),
        )
    );
    assert_eq!(tree("1 + 2 * 3"), "(+ 1 (* 2 3))");
    assert_eq!(tree("1 * 2 + 3"), "(+ (* 1 2) 3)");
}

#[test]
fn every_level_binds_tighter_than_the_one_before() {
    assert_eq!(tree("1 == 2 < 3 + 4 * 5 ^ 6"), "(== 1 (< 2 (+ 3 (* 4 (^ 5 6)))))");
    assert_eq!(tree("1 ^ 2 * 3 + 4 < 5 == 6"), "(== (< (+ (* (^ 1 2) 3) 4) 5) 6)");
}

#[test]
fn operators_of_one_level_group_from_the_left() {
    assert_eq!(tree("1 - 2 - 3"), "(- (- 1 2) 3)");
    assert_eq!(tree("1 - 2 + 3 - 4"), "(- (+ (- 1 2) 3) 4)");
    assert_eq!(tree("8 / 4 / 2"), "(/ (/ 8 4) 2)");
    assert_eq!(tree("8 / 4 * 2"), "(* (/ 8 4) 2)");
    assert_eq!(tree("1 < 2 <= 3 > 4 >= 5"), "(>= (> (<= (< 1 2) 3) 4) 5)");
    assert_eq!(tree("1 == 2 != 3"), "(!= (== 1 2) 3)");
}

#[test]
fn exponentiation_groups_from_the_left() {
    assert_eq!(tree("2 ^ 3 ^ 2"), "(^ (^ 2 3) 2)");
}

#[test]
fn prefix_operators_stack() {
    assert_eq!(tree("!!true"), "(! (! true))");
    assert_eq!(tree("- - 1"), "(- (- 1))");
    assert_eq!(tree("-!-1"), "(- (! (- 1)))");
    assert_eq!(
        parse("-1").unwrap(),
        Expr::Unary(UnaryExpr {
            operator: operator(TokenType::Minus, "-"),
            right: Box::new(number(1.0)),
        })
    );
}

#[test]
fn prefix_operators_bind_tighter_than_infix_operators() {
    assert_eq!(tree("-1 + 2"), "(+ (- 1) 2)");
    assert_eq!(tree("1 - -2"), "(- 1 (- 2))");
    assert_eq!(tree("-2 ^ 2"), "(^ (- 2) 2)");
    assert_eq!(tree("!true == false"), "(== (! true) false)");
}

#[test]
fn groups() {
    assert_eq!(tree("(1 + 2) * 3"), "(* (group (+ 1 2)) 3)");
    assert_eq!(tree("((1))"), "(group (group 1))");
    assert_eq!(tree("-(1 + 2)"), "(- (group (+ 1 2)))");
    assert_eq!(
        parse("(1)").unwrap(),
        Expr::Grouping(GroupingExpr { expr: Box::new(number(1.0)) })
    );
}

#[test]
fn an_operator_keeps_its_token() {
    let expr = parse("1\n+\n2").unwrap();
    match expr {
        Expr::Binary(binary) => {
            assert_eq!(binary.operator, Token::new(TokenType::Plus, "+".to_string(), None, 2));
        }
        _ => panic!("no infix expression"),
    }
}

#[test]
fn parsing_stops_after_the_expression() {
    let mut parser = Parser::new(tokens("1 + 2 3 + 4"));
    let first = parser.parse().unwrap();
    assert_eq!(AstPrinter::print(&first, &AstPrinter::new(show)), "(+ 1 2)");
    let second = parser.parse().unwrap();
    assert_eq!(AstPrinter::print(&second, &AstPrinter::new(show)), "(+ 3 4)");
    assert!(parser.parse().is_none());
}

#[test]
fn empty_input_expects_an_expression_at_the_end() {
    let error = parse("").unwrap_err();
    assert_eq!(error.kind, SyntaxErrorKind::ExpectExpression);
    assert_eq!(error.token, Token::new(TokenType::Eof, String::new(), None, 1));
}

#[test]
fn a_missing_operand_expects_an_expression() {
    let error = parse("1 +").unwrap_err();
    assert_eq!(error.kind, SyntaxErrorKind::ExpectExpression);
    assert_eq!(error.token.ttype, TokenType::Eof);

    let error = parse("1 + * 2").unwrap_err();
    assert_eq!(error.kind, SyntaxErrorKind::ExpectExpression);
    assert_eq!(error.token, Token::new(TokenType::Star, "*".to_string(), None, 1));
}

#[test]
fn a_token_that_starts_no_expression() {
    for source in [")", "}", "foo", "var", ";", "=", "and", "."] {
        let error = parse(source).unwrap_err();
        assert_eq!(error.kind, SyntaxErrorKind::ExpectExpression);
        assert_eq!(error.token.lexeme, source);
    }
}

#[test]
fn the_error_is_anchored_at_the_line_of_its_token() {
    let error = parse("1 +\n\n  )").unwrap_err();
    assert_eq!(error.token.line, 3);
}

#[test]
fn an_open_group_expects_its_closing_parenthesis() {
    let error = parse("(1 + 2").unwrap_err();
    assert_eq!(error.kind, SyntaxErrorKind::ExpectRightParen);
    assert_eq!(error.token.ttype, TokenType::Eof);

    let error = parse("(1 2)").unwrap_err();
    assert_eq!(error.kind, SyntaxErrorKind::ExpectRightParen);
    assert_eq!(error.token, Token::new(TokenType::Number, "2".to_string(),
        Some(Object::Num(2.0_f64.to_bits())), 1));
}

#[test]
fn an_empty_group_expects_an_expression() {
    let error = parse("()").unwrap_err();
    assert_eq!(error.kind, SyntaxErrorKind::ExpectExpression);
    assert_eq!(error.token.ttype, TokenType::RightParen);
}

#[test]
fn the_first_error_ends_the_parse() {
    let mut parser = Parser::new(tokens("(1 + ) + ("));
    assert!(parser.parse().is_none());
    assert_eq!(parser.errors().len(), 1);
    assert_eq!(parser.errors()[0].token.ttype, TokenType::RightParen);
}

#[test]
fn messages_of_syntax_errors() {
    assert_eq!(parse("+").unwrap_err().message(), "expect expression");
    assert_eq!(parse("(1").unwrap_err().message(), "Expect '(' after expression.");
}

#[test]
fn reports_of_syntax_errors() {
    assert_eq!(
        parse("1 +\n*").unwrap_err().report(),
        "[line 2] Error chars [ at '*'] : expect expression"
    );
    assert_eq!(
        parse("1 +").unwrap_err().report(),
        "[line 1] Error chars [at end.] : expect expression"
    );
    assert_eq!(
        parse("(1").unwrap_err().report(),
        "[line 1] Error chars [at end.] : Expect '(' after expression."
    );
}

fn kinds_left(parser: &mut Parser) -> Vec<String> {
    let mut out = Vec::new();
    loop {
        match parser.parse() {
            Some(expr) => out.push(AstPrinter::print(&expr, &AstPrinter::new(show))),
            None => break,
        }
    }
    out
}

#[test]
fn synchronize_discards_up_to_a_semicolon() {
    let mut parser = Parser::new(tokens("+ 1 2 ; 3 4"));
    assert!(parser.parse().is_none());
    parser.synchronize();
    assert_eq!(kinds_left(&mut parser), vec!["3", "4"]);
}

#[test]
fn synchronize_stops_before_a_statement() {
    for word in ["class", "fun", "var", "for", "if", "while", "print", "return"] {
        let source = format!("+ 1 2 {} 3", word);
        let mut parser = Parser::new(tokens(&source));
        assert!(parser.parse().is_none());
        parser.synchronize();
        assert!(parser.parse().is_none());
        assert_eq!(parser.errors().len(), 2);
        assert_eq!(parser.errors()[1].token.lexeme, word);
    }
}

#[test]
fn synchronize_passes_the_token_of_the_error_even_if_it_starts_a_statement() {
    let mut parser = Parser::new(tokens("var 1 ; 2"));
    assert!(parser.parse().is_none());
    assert_eq!(parser.errors()[0].token.ttype, TokenType::Var);
    parser.synchronize();
    assert_eq!(kinds_left(&mut parser), vec!["2"]);
}

#[test]
fn synchronize_stops_right_after_a_semicolon_that_it_discards() {
    let mut parser = Parser::new(tokens("; 1"));
    assert!(parser.parse().is_none());
    parser.synchronize();
    assert_eq!(kinds_left(&mut parser), vec!["1"]);
}

#[test]
fn synchronize_runs_to_the_end_where_no_boundary_comes() {
    let mut parser = Parser::new(tokens("+ 1 2 3"));
    assert!(parser.parse().is_none());
    parser.synchronize();
    assert!(parser.parse().is_none());
    assert_eq!(parser.errors()[1].token.ttype, TokenType::Eof);
}

#[test]
fn synchronize_at_the_end_stays_at_the_end() {
    let mut parser = Parser::new(tokens(""));
    assert!(parser.parse().is_none());
    parser.synchronize();
    parser.synchronize();
    assert!(parser.parse().is_none());
    assert_eq!(parser.errors()[1].token.ttype, TokenType::Eof);
}

#[test]
fn repeated_synchronization_reaches_the_end() {
    let mut parser = Parser::new(tokens("a ; b ; c ; var d ; print e"));
    let mut rounds = 0;
    while parser.parse().is_none() && parser.errors()[parser.errors().len() - 1].token.ttype
        != TokenType::Eof
    {
        parser.synchronize();
        rounds += 1;
        assert!(rounds <= 12);
    }
    assert_eq!(rounds, 5);
}
