//! Identifiers, and the factory that issues them.
use crate::text::{decimal, decimal_string, Convert};
use vstd::prelude::*;

verus! {

/// An opaque handle for a variable or a function: a sequential index.
///
/// A small value that is copied wherever it is referred to, and compared by
/// its index.
#[derive(Clone, Copy, Debug, PartialEq, Eq, Structural)]
pub struct Identifier(usize);

impl Identifier {
    /// The index that this identifier wraps.
    pub closed spec fn index(&self) -> nat {
        self.0 as nat
    }

    /// The identifier with index `id`.
    pub fn new(id: usize) -> (identifier: Self)
        ensures
            identifier.index() == id,
    {
        Identifier(id)
    }

    /// Identifiers are compared by index: two with one index are equal.
    pub proof fn lemma_equal_by_index(self, other: Identifier)
        ensures
            self == other <==> self.index() == other.index(),
    {
    }
}

impl Convert for Identifier {
    /// `identifier_` and the index in decimal.
    open spec fn text(&self) -> Seq<char> {
        "identifier_"@ + decimal(self.index())
    }

    fn convert(&self) -> (s: String) {
        let mut s = String::from_str("identifier_");
        let index = decimal_string(self.0);
        s.append(index.as_str());
        s
    }
}

/// Issues identifiers with successive indices, starting at 0.
///
/// The counter only grows and never wraps, so no index is issued twice. A
/// factory that has issued `usize::MAX` identifiers is exhausted: it holds
/// no index that it could issue and still count on.
pub struct IdentifierFactory(usize);

impl IdentifierFactory {
    /// The index of the identifier that is issued next; as many identifiers
    /// have been issued so far.
    pub closed spec fn next_index(&self) -> nat {
        self.0 as nat
    }

    /// One allocation: from `self`, `identifier` is issued and `after` is
    /// left.
    pub open spec fn issues(&self, identifier: Identifier, after: IdentifierFactory) -> bool {
        &&& identifier.index() == self.next_index()
        &&& after.next_index() == self.next_index() + 1
    }

    /// Whether the factory has run out of indices.
    pub fn is_exhausted(&self) -> (exhausted: bool)
        ensures
            exhausted == (self.next_index() >= usize::MAX),
    {
        self.0 == usize::MAX
    }

    /// Issues the next identifier and advances the counter by one.
    pub fn new(&mut self) -> (identifier: Identifier)
        requires
            old(self).next_index() < usize::MAX,
        ensures
            old(self).issues(identifier, *final(self)),
    {
        let identifier = Identifier::new(self.0);
        self.0 += 1;
        identifier
    }
}

impl Default for IdentifierFactory {
    /// A factory that has issued nothing yet.
    fn default() -> (factory: Self)
        ensures
            factory.next_index() == 0,
    {
        IdentifierFactory(0)
    }
}

} // verus!
