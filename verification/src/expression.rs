//! Expressions: integer literals and identifiers (whose rules stand with
//! their types), arithmetic, comparisons and calls.
//!
//! An operand is any node. Operands are rendered as they are, without added
//! parentheses.
use crate::text::{join, join_strings, views, Convert};
use vstd::prelude::*;

verus! {

/// The remainder of the first operand divided by the second.
pub struct Remainder<A, B>(pub A, pub B);

/// The quotient of the first operand divided by the second.
pub struct Divide<A, B>(pub A, pub B);

/// The sum of the two operands.
pub struct Plus<A, B>(pub A, pub B);

/// A comparison of two operands.
pub enum Comparison<A, B> {
    Equals(A, B),
    NotEquals(A, B),
    GreaterThan(A, B),
    LessThan(A, B),
}

/// A call of the function that the first field names, with the arguments of
/// the second in order.
pub struct Call<A>(pub A, pub Vec<Box<dyn Convert>>);

/// Renders `left`, `operator` and `right` one after the other.
fn infix<A: Convert, B: Convert>(left: &A, operator: &str, right: &B) -> (s: String)
    ensures
        s@ == left.text() + operator@ + right.text(),
{
    let mut s = left.convert();
    let right_text = right.convert();
    s.append(operator);
    s.append(right_text.as_str());
    s
}

impl<A: Convert, B: Convert> Convert for Remainder<A, B> {
    open spec fn text(&self) -> Seq<char> {
        self.0.text() + " % "@ + self.1.text()
    }

    fn convert(&self) -> (s: String) {
        infix(&self.0, " % ", &self.1)
    }
}

impl<A: Convert, B: Convert> Convert for Divide<A, B> {
    open spec fn text(&self) -> Seq<char> {
        self.0.text() + " / "@ + self.1.text()
    }

    fn convert(&self) -> (s: String) {
        infix(&self.0, " / ", &self.1)
    }
}

impl<A: Convert, B: Convert> Convert for Plus<A, B> {
    open spec fn text(&self) -> Seq<char> {
        self.0.text() + " + "@ + self.1.text()
    }

    fn convert(&self) -> (s: String) {
        infix(&self.0, " + ", &self.1)
    }
}

impl<A: Convert, B: Convert> Convert for Comparison<A, B> {
    open spec fn text(&self) -> Seq<char> {
        match self {
            Comparison::Equals(a, b) => a.text() + " == "@ + b.text(),
            Comparison::NotEquals(a, b) => a.text() + " != "@ + b.text(),
            Comparison::GreaterThan(a, b) => a.text() + " > "@ + b.text(),
            Comparison::LessThan(a, b) => a.text() + " < "@ + b.text(),
        }
    }

    fn convert(&self) -> (s: String) {
        match self {
            Comparison::Equals(a, b) => infix(a, " == ", b),
            Comparison::NotEquals(a, b) => infix(a, " != ", b),
            Comparison::GreaterThan(a, b) => infix(a, " > ", b),
            Comparison::LessThan(a, b) => infix(a, " < ", b),
        }
    }
}

/// The texts of the arguments of a call, in order.
pub open spec fn argument_texts(arguments: Seq<Box<dyn Convert>>) -> Seq<Seq<char>> {
    arguments.map_values(|argument: Box<dyn Convert>| argument.text())
}

impl<A: Convert> Convert for Call<A> {
    /// The target, then the arguments in parentheses, joined by `", "`.
    open spec fn text(&self) -> Seq<char> {
        self.0.text() + "("@ + join(argument_texts(self.1@), ", "@) + ")"@
    }

    fn convert(&self) -> (s: String) {
        let mut rendered: Vec<String> = Vec::new();
        let mut i: usize = 0;
        while i < self.1.len()
            invariant
                i <= self.1@.len(),
                rendered@.len() == i,
                forall|k: int| 0 <= k < i ==> (#[trigger] rendered@[k])@ == self.1@[k].text(),
            decreases self.1@.len() - i,
        {
            let argument = self.1[i].convert();
            rendered.push(argument);
            i = i + 1;
        }
        assert(views(rendered@) =~= argument_texts(self.1@));
        let arguments = join_strings(&rendered, ", ");
        let mut s = self.0.convert();
        s.append("(");
        s.append(arguments.as_str());
        s.append(")");
        s
    }
}

} // verus!
