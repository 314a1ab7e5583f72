//! Expression trees and their rendering in prefix form.

use vstd::prelude::*;
use vstd::string::StringExecFns;
use crate::token::Token;

verus! {

/// An expression.
pub enum Expr {
    Binary { left: Box<Expr>, operator: Token, right: Box<Expr> },
    Grouping { expression: Box<Expr> },
    Literal { value: String },
    Unary { operator: Token, right: Box<Expr> },
}

/// The texts `parts`, each with a space before it.
pub open spec fn spaced(parts: Seq<Seq<char>>) -> Seq<char>
    decreases parts.len(),
{
    if parts.len() == 0 {
        Seq::empty()
    } else {
        spaced(parts.drop_last()) + " "@ + parts.last()
    }
}

/// `name` and the texts `parts`, separated by spaces, within parentheses.
pub open spec fn parenthesized(name: Seq<char>, parts: Seq<Seq<char>>) -> Seq<char> {
    "("@ + name + spaced(parts) + ")"@
}

/// The prefix form of an expression: an operator's lexeme before its
/// operands, `group` before a grouped expression, a literal as it is, and
/// `nil` for the empty literal.
pub open spec fn printed(expr: Expr) -> Seq<char>
    decreases expr,
{
    match expr {
        Expr::Binary { left, operator, right } => parenthesized(
            operator.lexeme@,
            seq![printed(*left), printed(*right)],
        ),
        Expr::Grouping { expression } => parenthesized("group"@, seq![printed(*expression)]),
        Expr::Literal { value } => if value@.len() == 0 {
            "nil"@
        } else {
            value@
        },
        Expr::Unary { operator, right } => parenthesized(operator.lexeme@, seq![printed(*right)]),
    }
}

/// The views of a sequence of strings, in order.
pub open spec fn texts(parts: Seq<String>) -> Seq<Seq<char>> {
    parts.map_values(|s: String| s@)
}

impl Expr {
    /// Renders the expression with `printer`, operands first.
    fn accept(&self, printer: &AstPrinter) -> (s: String)
        ensures
            s@ == printed(*self),
        decreases self,
    {
        match self {
            Expr::Binary { left, operator, right } => {
                let l = left.accept(printer);
                let r = right.accept(printer);
                printer.parse_binary(operator, l, r)
            },
            Expr::Grouping { expression } => {
                let inner = expression.accept(printer);
                printer.parse_grouping(inner)
            },
            Expr::Literal { value } => printer.parse_literal(value),
            Expr::Unary { operator, right } => {
                let r = right.accept(printer);
                printer.parse_unary(operator, r)
            },
        }
    }
}

/// Renders expressions in prefix form.
pub struct AstPrinter;

impl AstPrinter {
    /// The prefix form of `expr`.
    pub fn print(&self, expr: Expr) -> (s: String)
        ensures
            s@ == printed(expr),
    {
        expr.accept(self)
    }

    fn parenthesize(&self, name: &str, parts: Vec<String>) -> (s: String)
        ensures
            s@ == parenthesized(name@, texts(parts@)),
    {
        let mut output = String::new();
        output.append("(");
        output.append(name);
        assert(output@ =~= "("@ + name@);
        let mut i: usize = 0;
        while i < parts.len()
            invariant
                i <= parts.len(),
                output@ == "("@ + name@ + spaced(texts(parts@.subrange(0, i as int))),
            decreases parts.len() - i,
        {
            output.append(" ");
            output.append(parts[i].as_str());
            proof {
                let done = texts(parts@.subrange(0, i + 1));
                assert(done.drop_last() =~= texts(parts@.subrange(0, i as int)));
                assert(done.last() == parts@[i as int]@);
                assert(output@ =~= "("@ + name@ + spaced(done));
            }
            i += 1;
        }
        assert(parts@.subrange(0, i as int) =~= parts@);
        output.append(")");
        output
    }

    fn parse_binary(&self, operator: &Token, left: String, right: String) -> (s: String)
        ensures
            s@ == parenthesized(operator.lexeme@, seq![left@, right@]),
    {
        let parts = vec![left, right];
        assert(texts(parts@) =~= seq![left@, right@]);
        self.parenthesize(operator.lexeme.as_str(), parts)
    }

    fn parse_grouping(&self, expression: String) -> (s: String)
        ensures
            s@ == parenthesized("group"@, seq![expression@]),
    {
        let parts = vec![expression];
        assert(texts(parts@) =~= seq![expression@]);
        self.parenthesize("group", parts)
    }

    fn parse_literal(&self, value: &String) -> (s: String)
        ensures
            s@ == if value@.len() == 0 {
                "nil"@
            } else {
                value@
            },
    {
        if value.as_str().is_empty() {
            String::from_str("nil")
        } else {
            value.clone()
        }
    }

    fn parse_unary(&self, operator: &Token, right: String) -> (s: String)
        ensures
            s@ == parenthesized(operator.lexeme@, seq![right@]),
    {
        let parts = vec![right];
        assert(texts(parts@) =~= seq![right@]);
        self.parenthesize(operator.lexeme.as_str(), parts)
    }
}

} // verus!
