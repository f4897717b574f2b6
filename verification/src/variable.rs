//! Primitive types and typed variables.
use crate::identifier::Identifier;
use crate::text::Convert;
use vstd::prelude::*;

verus! {

/// The primitive types of the representation: a closed set.
#[derive(Clone, Copy, Debug, PartialEq, Eq, Structural)]
pub enum Type {
    /// The 32-bit signed integer.
    Int32,
}

impl Convert for Type {
    /// The keyword of the type in the target language.
    open spec fn text(&self) -> Seq<char> {
        match self {
            Type::Int32 => "int"@,
        }
    }

    fn convert(&self) -> (s: String) {
        match self {
            Type::Int32 => String::from_str("int"),
        }
    }
}

/// A typed, named slot: a parameter of a function or a local of its body.
#[derive(Clone, Copy, Debug, PartialEq, Eq, Structural)]
pub struct Variable {
    /// The name of the slot.
    pub identifier: Identifier,
    /// The type of the values that it holds.
    pub ty: Type,
}

impl Variable {
    /// The variable as it is introduced, in a parameter list or a
    /// declaration: its type, a space, its identifier.
    pub open spec fn declaration(&self) -> Seq<char> {
        self.ty.text() + " "@ + self.identifier.text()
    }

    /// Renders the variable as it is introduced.
    pub(crate) fn declare(&self) -> (s: String)
        ensures
            s@ == self.declaration(),
    {
        let mut s = self.ty.convert();
        let identifier = self.identifier.convert();
        s.append(" ");
        s.append(identifier.as_str());
        s
    }
}

} // verus!
