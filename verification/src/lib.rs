//! A small intermediate representation of imperative programs and its
//! rendering as source text in a C-like language.
//!
//! A program is a [`Graph`] of [`Function`]s, each a list of
//! [`Instruction`]s over expressions. Every node implements [`Convert`]:
//! `convert` returns the node's text, and the spec function `text` says
//! which text that is.
pub mod expression;
pub mod identifier;
pub mod instruction;
pub mod laws;
pub mod program;
pub mod text;
pub mod variable;

pub use expression::{Call, Comparison, Divide, Plus, Remainder};
pub use identifier::{Identifier, IdentifierFactory};
pub use instruction::Instruction;
pub use program::{Function, Graph};
pub use text::Convert;
pub use variable::{Type, Variable};
