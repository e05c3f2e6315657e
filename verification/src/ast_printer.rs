//! A printer of expressions in prefix notation, as parenthesised lists.

use vstd::prelude::*;
use vstd::string::StringExecFns;
use crate::expr::{BinaryExpr, Expr, ExprVisitor, GroupingExpr, LiteralExpr, UnaryExpr};
use crate::token::{shown, shows, text_follows_digits, text_under};

verus! {

/// The texts `parts`, each after a space.
pub open spec fn spaced(parts: Seq<Seq<char>>) -> Seq<char>
    decreases parts.len(),
{
    if parts.len() == 0 {
        Seq::empty()
    } else {
        spaced(parts.drop_last()).push(' ') + parts.last()
    }
}

/// The parenthesised list of `name` and `parts`: `(name part part)`.
pub open spec fn parenthesized(name: Seq<char>, parts: Seq<Seq<char>>) -> Seq<char> {
    (seq!['('] + name + spaced(parts)).push(')')
}

/// `text` is the parenthesised list of `name` and `parts`.
pub open spec fn lists(text: Seq<char>, name: Seq<char>, parts: Seq<Seq<char>>) -> bool {
    text == parenthesized(name, parts)
}

/// `text` is the parenthesised list of `name` and `part`.
pub open spec fn lists_one(text: Seq<char>, name: Seq<char>, part: Seq<char>) -> bool {
    text == parenthesized(name, seq![part])
}

/// `text` is the parenthesised list of `name`, `left` and `right`.
pub open spec fn lists_two(text: Seq<char>, name: Seq<char>, left: Seq<char>, right: Seq<char>)
    -> bool {
    text == parenthesized(name, seq![left, right])
}

/// `text` is a text of `expr` in prefix notation, where `show` gives the text
/// of a number: a literal is the text of its value, a group is the list of
/// `group` and its inner expression, and an operator is the list of its
/// lexeme and its operands.
pub open spec fn prints<S: Fn(u64) -> String>(show: S, expr: Expr, text: Seq<char>) -> bool
    decreases expr,
{
    match expr {
        Expr::Literal(literal) => shown(show, literal.value@, text),
        Expr::Grouping(grouping) => grouping_prints(show, grouping, text),
        Expr::Unary(unary) => unary_prints(show, unary, text),
        Expr::Binary(binary) => binary_prints(show, binary, text),
    }
}

/// `text` is a text of the group `grouping`.
pub open spec fn grouping_prints<S: Fn(u64) -> String>(
    show: S,
    grouping: GroupingExpr,
    text: Seq<char>,
) -> bool
    decreases grouping,
{
    exists|inner: Seq<char>|
        prints(show, *grouping.expr, inner) && #[trigger] lists_one(text, "group"@, inner)
}

/// `text` is a text of the prefix expression `unary`.
pub open spec fn unary_prints<S: Fn(u64) -> String>(show: S, unary: UnaryExpr, text: Seq<char>)
    -> bool
    decreases unary,
{
    exists|right: Seq<char>|
        prints(show, *unary.right, right) && #[trigger] lists_one(
            text,
            unary.operator.lexeme@,
            right,
        )
}

/// `text` is a text of the infix expression `binary`.
pub open spec fn binary_prints<S: Fn(u64) -> String>(show: S, binary: BinaryExpr, text: Seq<char>)
    -> bool
    decreases binary,
{
    exists|left: Seq<char>, right: Seq<char>|
        prints(show, *binary.left, left) && prints(show, *binary.right, right)
            && #[trigger] lists_two(text, binary.operator.lexeme@, left, right)
}

/// The text of `expr` in prefix notation where `digits` names the text of a
/// number.
pub open spec fn printed_under(digits: spec_fn(u64) -> Seq<char>, expr: Expr) -> Seq<char>
    decreases expr,
{
    match expr {
        Expr::Literal(literal) => text_under(digits, literal.value@),
        Expr::Grouping(grouping) => parenthesized(
            "group"@,
            seq![printed_under(digits, *grouping.expr)],
        ),
        Expr::Unary(unary) => parenthesized(
            unary.operator.lexeme@,
            seq![printed_under(digits, *unary.right)],
        ),
        Expr::Binary(binary) => parenthesized(
            binary.operator.lexeme@,
            seq![printed_under(digits, *binary.left), printed_under(digits, *binary.right)],
        ),
    }
}

/// An expression has one text: where every text that `show` gives is the one
/// that `digits` names, a text of an expression is its text under `digits`.
pub proof fn printing_follows_digits<S: Fn(u64) -> String>(
    show: S,
    digits: spec_fn(u64) -> Seq<char>,
    expr: Expr,
    text: Seq<char>,
)
    requires
        shows(show, digits),
        prints(show, expr, text),
    ensures
        text == printed_under(digits, expr),
    decreases expr,
{
    reveal_with_fuel(prints, 2);
    match expr {
        Expr::Literal(literal) => {
            text_follows_digits(show, digits, literal.value@, text);
        },
        Expr::Grouping(grouping) => {
            let inner = choose|inner: Seq<char>|
                prints(show, *grouping.expr, inner) && #[trigger] lists_one(
                    text,
                    "group"@,
                    inner,
                );
            printing_follows_digits(show, digits, *grouping.expr, inner);
        },
        Expr::Unary(unary) => {
            let right = choose|right: Seq<char>|
                prints(show, *unary.right, right) && #[trigger] lists_one(
                    text,
                    unary.operator.lexeme@,
                    right,
                );
            printing_follows_digits(show, digits, *unary.right, right);
        },
        Expr::Binary(binary) => {
            let (left, right) = choose|left: Seq<char>, right: Seq<char>|
                prints(show, *binary.left, left) && prints(show, *binary.right, right)
                    && #[trigger] lists_two(text, binary.operator.lexeme@, left, right);
            printing_follows_digits(show, digits, *binary.left, left);
            printing_follows_digits(show, digits, *binary.right, right);
        },
    }
}

/// `parts` are texts of `exprs`, one for one.
pub open spec fn all_print<S: Fn(u64) -> String>(
    show: S,
    exprs: Seq<&Expr>,
    parts: Seq<Seq<char>>,
) -> bool {
    &&& parts.len() == exprs.len()
    &&& forall|i: int| 0 <= i < exprs.len() ==> prints(show, *#[trigger] exprs[i], parts[i])
}

/// `text` is the parenthesised list of `name` and texts of `exprs`.
pub open spec fn list_prints<S: Fn(u64) -> String>(
    show: S,
    name: Seq<char>,
    exprs: Seq<&Expr>,
    text: Seq<char>,
) -> bool {
    exists|parts: Seq<Seq<char>>| #[trigger]
        all_print(show, exprs, parts) && lists(text, name, parts)
}

/// The number of nodes of `expr`.
pub open spec fn size(expr: Expr) -> nat
    decreases expr,
{
    match expr {
        Expr::Binary(binary) => 1 + size(*binary.left) + size(*binary.right),
        Expr::Grouping(grouping) => 1 + size(*grouping.expr),
        Expr::Unary(unary) => 1 + size(*unary.right),
        Expr::Literal(_) => 1,
    }
}

/// The number of nodes of all the `exprs`.
pub open spec fn sizes(exprs: Seq<&Expr>) -> nat
    decreases exprs.len(),
{
    if exprs.len() == 0 {
        0
    } else {
        sizes(exprs.drop_last()) + size(*exprs.last())
    }
}

/// No expression of `exprs` has more nodes than all of them together.
pub proof fn lemma_size_within(exprs: Seq<&Expr>, i: int)
    requires
        0 <= i < exprs.len(),
    ensures
        size(*exprs[i]) <= sizes(exprs),
    decreases exprs.len(),
{
    if i < exprs.len() - 1 {
        lemma_size_within(exprs.drop_last(), i);
    }
}

/// A printer of expressions in prefix notation.
///
/// `show` gives the text of a number from its encoding.
pub struct AstPrinter<S> {
    pub show: S,
}

impl<S: Fn(u64) -> String> AstPrinter<S> {
    pub fn new(show: S) -> (r: Self)
        ensures
            r.show == show,
    {
        AstPrinter { show }
    }

    /// `show` can be called on every encoding.
    pub open spec fn ready(&self) -> bool {
        forall|bits: u64| call_requires(self.show, (bits,))
    }

    /// The text of `expr` in prefix notation.
    pub fn print(expr: &Expr, visitor: &Self) -> (r: String)
        requires
            visitor.ready(),
        ensures
            prints(visitor.show, *expr, r@),
    {
        Self::get_expression_string(expr, visitor)
    }

    /// The parenthesised list of `name` and the texts of `exprs`.
    pub fn parenthesize(name: &str, exprs: &[&Expr], visitor: &Self) -> (r: String)
        requires
            visitor.ready(),
        ensures
            list_prints(visitor.show, name@, exprs@, r@),
        decreases sizes(exprs@), 2nat,
    {
        let mut string = String::from_str("(");
        string.append(name);
        proof {
            reveal_strlit("(");
        }
        assert(string@ =~= seq!['('] + name@ + spaced(Seq::<Seq<char>>::empty()));
        let ghost mut parts: Seq<Seq<char>> = Seq::empty();
        let mut i: usize = 0;
        while i < exprs.len()
            invariant
                visitor.ready(),
                i <= exprs@.len(),
                parts.len() == i,
                forall|k: int| 0 <= k < i ==> prints(visitor.show, *#[trigger] exprs@[k], parts[k]),
                string@ == seq!['('] + name@ + spaced(parts),
            decreases exprs@.len() - i,
        {
            string.push(' ');
            proof {
                lemma_size_within(exprs@, i as int);
            }
            let str = Self::get_expression_string(exprs[i], visitor);
            string.append(str.as_str());
            proof {
                let grown = parts.push(str@);
                assert(grown.drop_last() =~= parts);
                assert(string@ =~= seq!['('] + name@ + spaced(grown));
                parts = grown;
            }
            i += 1;
        }
        string.push(')');
        assert(all_print(visitor.show, exprs@, parts) && lists(string@, name@, parts));
        string
    }

    /// The text of `expr`: what the operation of `visitor` for its kind of
    /// node gives.
    pub fn get_expression_string(expr: &Expr, visitor: &Self) -> (r: String)
        requires
            visitor.ready(),
        ensures
            prints(visitor.show, *expr, r@),
        decreases size(*expr), 1nat,
    {
        match expr {
            Expr::Binary(binary) => visitor.visit_binary(binary),
            Expr::Grouping(grouping) => visitor.visit_grouping(grouping),
            Expr::Unary(unary) => visitor.visit_unary(unary),
            Expr::Literal(literal) => visitor.visit_literal(literal),
        }
    }
}

impl<S: Fn(u64) -> String> ExprVisitor<String> for AstPrinter<S> {
    open spec fn accepts_binary(&self, binary: &BinaryExpr) -> bool {
        self.ready()
    }

    open spec fn yields_binary(&self, binary: &BinaryExpr, result: String) -> bool {
        prints(self.show, Expr::Binary(*binary), result@)
    }

    open spec fn accepts_grouping(&self, grouping: &GroupingExpr) -> bool {
        self.ready()
    }

    open spec fn yields_grouping(&self, grouping: &GroupingExpr, result: String) -> bool {
        prints(self.show, Expr::Grouping(*grouping), result@)
    }

    open spec fn accepts_unary(&self, unary: &UnaryExpr) -> bool {
        self.ready()
    }

    open spec fn yields_unary(&self, unary: &UnaryExpr, result: String) -> bool {
        prints(self.show, Expr::Unary(*unary), result@)
    }

    open spec fn accepts_literal(&self, literal: &LiteralExpr) -> bool {
        self.ready()
    }

    open spec fn yields_literal(&self, literal: &LiteralExpr, result: String) -> bool {
        prints(self.show, Expr::Literal(*literal), result@)
    }

    fn visit_binary(&self, binary: &BinaryExpr) -> (result: String)
        decreases size(Expr::Binary(*binary)), 0nat,
    {
        let expr_vec: [&Expr; 2] = [&*binary.left, &*binary.right];
        proof {
            let exprs = expr_vec@;
            assert(sizes(exprs) == size(*binary.left) + size(*binary.right)) by {
                reveal_with_fuel(sizes, 3);
            }
        }
        let result = Self::parenthesize(binary.operator.lexeme.as_str(), &expr_vec, self);
        proof {
            reveal_with_fuel(prints, 2);
            let parts = choose|parts: Seq<Seq<char>>| #[trigger]
                all_print(self.show, expr_vec@, parts) && lists(
                    result@,
                    binary.operator.lexeme@,
                    parts,
                );
            assert(parts =~= seq![parts[0], parts[1]]);
            assert(lists_two(result@, binary.operator.lexeme@, parts[0], parts[1]));
        }
        result
    }

    fn visit_grouping(&self, grouping: &GroupingExpr) -> (result: String)
        decreases size(Expr::Grouping(*grouping)), 0nat,
    {
        let expr_vec: [&Expr; 1] = [&*grouping.expr];
        proof {
            let exprs = expr_vec@;
            assert(sizes(exprs) == size(*grouping.expr)) by {
                reveal_with_fuel(sizes, 2);
            }
        }
        let result = Self::parenthesize("group", &expr_vec, self);
        proof {
            reveal_with_fuel(prints, 2);
            let parts = choose|parts: Seq<Seq<char>>| #[trigger]
                all_print(self.show, expr_vec@, parts) && lists(result@, "group"@, parts);
            assert(parts =~= seq![parts[0]]);
            assert(lists_one(result@, "group"@, parts[0]));
        }
        result
    }

    fn visit_unary(&self, unary: &UnaryExpr) -> (result: String)
        decreases size(Expr::Unary(*unary)), 0nat,
    {
        let expr_vec: [&Expr; 1] = [&*unary.right];
        proof {
            let exprs = expr_vec@;
            assert(sizes(exprs) == size(*unary.right)) by {
                reveal_with_fuel(sizes, 2);
            }
        }
        let result = Self::parenthesize(unary.operator.lexeme.as_str(), &expr_vec, self);
        proof {
            reveal_with_fuel(prints, 2);
            let parts = choose|parts: Seq<Seq<char>>| #[trigger]
                all_print(self.show, expr_vec@, parts) && lists(
                    result@,
                    unary.operator.lexeme@,
                    parts,
                );
            assert(parts =~= seq![parts[0]]);
            assert(lists_one(result@, unary.operator.lexeme@, parts[0]));
        }
        result
    }

    fn visit_literal(&self, literal: &LiteralExpr) -> (result: String)
    {
        literal.value.to_text(&self.show)
    }
}

} // verus!
