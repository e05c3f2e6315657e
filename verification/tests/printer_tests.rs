use rlox::ast_printer::AstPrinter;
use rlox::expr::{BinaryExpr, Expr, ExprVisitor, GroupingExpr, LiteralExpr, UnaryExpr};
use rlox::token::{Object, Token};
use rlox::token_type::TokenType;

fn show(bits: u64) -> String {
    f64::from_bits(bits).to_string()
}

fn number(value: f64) -> Expr {
    Expr::Literal(LiteralExpr { value: Object::Num(value.to_bits()) })
}

fn op(ttype: TokenType, lexeme: &str) -> Token {
    Token::new(ttype, lexeme.to_string(), None, 1)
}

fn binary(left: Expr, ttype: TokenType, lexeme: &str, right: Expr) -> Expr {
    Expr::Binary(BinaryExpr { left: Box::new(left), operator: op(ttype, lexeme), right: Box::new(right) })
}

fn print(expr: &Expr) -> String {
    AstPrinter::print(expr, &AstPrinter::new(show))
}

#[test]
fn prints_literals() {
    assert_eq!(print(&number(1.0)), "1");
    assert_eq!(print(&number(45.67)), "45.67");
    assert_eq!(print(&Expr::Literal(LiteralExpr { value: Object::Str("hi".to_string()) })), "hi");
    assert_eq!(print(&Expr::Literal(LiteralExpr { value: Object::Boolean(true) })), "true");
    assert_eq!(print(&Expr::Literal(LiteralExpr { value: Object::Nil })), "nil");
}

#[test]
fn prints_an_infix_expression_as_a_list() {
    assert_eq!(print(&binary(number(1.0), TokenType::Plus, "+", number(2.0))), "(+ 1 2)");
}

#[test]
fn prints_a_prefix_expression_as_a_list() {
    let expr = Expr::Unary(UnaryExpr {
        operator: op(TokenType::Minus, "-"),
        right: Box::new(number(123.0)),
    });
    assert_eq!(print(&expr), "(- 123)");
}

#[test]
fn prints_a_group_as_a_list() {
    let expr = Expr::Grouping(GroupingExpr { expr: Box::new(number(45.67)) });
    assert_eq!(print(&expr), "(group 45.67)");
}

#[test]
fn prints_nested_expressions() {
    let expr = binary(
        Expr::Unary(UnaryExpr { operator: op(TokenType::Minus, "-"), right: Box::new(number(123.0)) }),
        TokenType::Star,
        "*",
        Expr::Grouping(GroupingExpr { expr: Box::new(number(45.67)) }),
    );
    assert_eq!(print(&expr), "(* (- 123) (group 45.67))");
    let sum = binary(
        number(1.0),
        TokenType::Plus,
        "+",
        binary(number(2.0), TokenType::Star, "*", number(3.0)),
    );
    assert_eq!(print(&sum), "(+ 1 (* 2 3))");
}

#[test]
fn parenthesize_lists_a_name_and_expressions() {
    let printer = AstPrinter::new(show);
    let (one, two, three) = (number(1.0), number(2.0), number(3.0));
    assert_eq!(AstPrinter::parenthesize("f", &[], &printer), "(f)");
    assert_eq!(AstPrinter::parenthesize("f", &[&one], &printer), "(f 1)");
    assert_eq!(AstPrinter::parenthesize("f", &[&one, &two, &three], &printer), "(f 1 2 3)");
    assert_eq!(AstPrinter::parenthesize("", &[&one], &printer), "( 1)");
    let nested = binary(number(1.0), TokenType::Less, "<", number(2.0));
    assert_eq!(AstPrinter::parenthesize("list", &[&nested, &three], &printer), "(list (< 1 2) 3)");
}

#[test]
fn get_expression_string_is_the_text_of_the_expression() {
    let printer = AstPrinter::new(show);
    let expr = binary(number(1.0), TokenType::Equals, "==", number(2.0));
    assert_eq!(AstPrinter::get_expression_string(&expr, &printer), "(== 1 2)");
}

#[test]
fn the_printer_gets_the_text_of_a_number_from_its_function() {
    fn hex(bits: u64) -> String {
        format!("{:x}", bits)
    }
    let printer = AstPrinter::new(hex);
    let expr = binary(number(1.0), TokenType::Plus, "+", number(2.0));
    assert_eq!(AstPrinter::print(&expr, &printer), "(+ 3ff0000000000000 4000000000000000)");
}

#[test]
fn the_printer_is_a_visitor() {
    let printer = AstPrinter::new(show);
    let expr = binary(number(1.0), TokenType::Plus, "+", number(2.0));
    assert_eq!(expr.accept(&printer), "(+ 1 2)");
    let node = BinaryExpr {
        left: Box::new(number(6.0)),
        operator: op(TokenType::Slash, "/"),
        right: Box::new(number(3.0)),
    };
    assert_eq!(printer.visit_binary(&node), "(/ 6 3)");
    assert_eq!(node.accept(&printer), "(/ 6 3)");
    let unary = UnaryExpr { operator: op(TokenType::Bang, "!"), right: Box::new(number(0.0)) };
    assert_eq!(printer.visit_unary(&unary), "(! 0)");
    assert_eq!(unary.accept(&printer), "(! 0)");
    let grouping = GroupingExpr { expr: Box::new(number(9.0)) };
    assert_eq!(printer.visit_grouping(&grouping), "(group 9)");
    assert_eq!(grouping.accept(&printer), "(group 9)");
    let literal = LiteralExpr { value: Object::Nil };
    assert_eq!(printer.visit_literal(&literal), "nil");
    assert_eq!(literal.accept(&printer), "nil");
}

struct Depth;

impl ExprVisitor<usize> for Depth {
    fn visit_binary(&self, binary: &BinaryExpr) -> usize {
        1 + binary.left.accept(self).max(binary.right.accept(self))
    }

    fn visit_grouping(&self, grouping: &GroupingExpr) -> usize {
        1 + grouping.expr.accept(self)
    }

    fn visit_unary(&self, unary: &UnaryExpr) -> usize {
        1 + unary.right.accept(self)
    }

    fn visit_literal(&self, _literal: &LiteralExpr) -> usize {
        1
    }
}

#[test]
fn accept_invokes_the_operation_for_the_kind_of_node() {
    let expr = binary(
        number(1.0),
        TokenType::Plus,
        "+",
        Expr::Grouping(GroupingExpr {
            expr: Box::new(Expr::Unary(UnaryExpr {
                operator: op(TokenType::Minus, "-"),
                right: Box::new(number(2.0)),
            })),
        }),
    );
    assert_eq!(expr.accept(&Depth), 4);
    assert_eq!(number(1.0).accept(&Depth), 1);
}
