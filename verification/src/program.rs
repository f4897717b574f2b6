//! Functions, and the program that holds them.
use crate::identifier::Identifier;
use crate::instruction::{body_text, Instruction};
use crate::text::{join, join_strings, views, Convert};
use crate::variable::{Type, Variable};
use vstd::prelude::*;

verus! {

/// A named routine. It owns its parameters and its body.
pub struct Function {
    /// The name of the function.
    pub identifier: Identifier,
    /// The parameters, in order.
    pub parameters: Vec<Variable>,
    /// The type of the value that the function returns.
    pub returns: Type,
    /// The body.
    pub instructions: Vec<Instruction>,
}

/// A whole program: its functions in order and, if it has one, the
/// identifier of the function at which it starts.
///
/// `main` is a copy of an identifier. Nothing checks that a function of the
/// program bears it.
pub struct Graph {
    /// The functions, in the order in which they are rendered.
    pub functions: Vec<Function>,
    /// The entry point, if the program has one.
    pub main: Option<Identifier>,
}

/// The parameters as they are introduced, in order.
pub open spec fn parameter_texts(parameters: Seq<Variable>) -> Seq<Seq<char>> {
    parameters.map_values(|parameter: Variable| parameter.declaration())
}

/// The texts of the functions, in order.
pub open spec fn function_texts(functions: Seq<Function>) -> Seq<Seq<char>> {
    functions.map_values(|function: Function| function.text())
}

/// The function of the target language at which a program starts: it calls
/// the function named `entry` and returns what that returns.
pub open spec fn entry_wrapper(entry: Identifier) -> Seq<char> {
    "int main(void) { return "@ + entry.text() + "(); }"@
}

/// What a program with entry point `main` renders after its functions: the
/// entry wrapper, or nothing.
pub open spec fn entry_texts(main: Option<Identifier>) -> Seq<Seq<char>> {
    match main {
        Some(entry) => seq![entry_wrapper(entry)],
        None => Seq::empty(),
    }
}

impl Convert for Function {
    /// The return type, the identifier, the parameters in parentheses joined
    /// by `", "`, and the body at depth 1 in braces.
    open spec fn text(&self) -> Seq<char> {
        self.returns.text() + " "@ + self.identifier.text() + "("@ + join(
            parameter_texts(self.parameters@),
            ", "@,
        ) + ") {\n"@ + body_text(self.instructions@, 1) + "}"@
    }

    fn convert(&self) -> (s: String) {
        let mut declarations: Vec<String> = Vec::new();
        let mut i: usize = 0;
        while i < self.parameters.len()
            invariant
                i <= self.parameters@.len(),
                declarations@.len() == i,
                forall|k: int|
                    0 <= k < i ==> (#[trigger] declarations@[k])@
                        == self.parameters@[k].declaration(),
            decreases self.parameters@.len() - i,
        {
            let declaration = self.parameters[i].declare();
            declarations.push(declaration);
            i = i + 1;
        }
        assert(views(declarations@) =~= parameter_texts(self.parameters@));
        let parameters = join_strings(&declarations, ", ");
        let identifier = self.identifier.convert();
        let body = self.instructions.convert();
        let mut s = self.returns.convert();
        s.append(" ");
        s.append(identifier.as_str());
        s.append("(");
        s.append(parameters.as_str());
        s.append(") {\n");
        s.append(body.as_str());
        s.append("}");
        s
    }
}

impl Convert for Graph {
    /// The functions and, if there is an entry point, the entry wrapper
    /// after them, with a blank line between neighbours.
    open spec fn text(&self) -> Seq<char> {
        join(function_texts(self.functions@) + entry_texts(self.main), "\n\n"@)
    }

    fn convert(&self) -> (s: String) {
        let mut parts: Vec<String> = Vec::new();
        let mut i: usize = 0;
        while i < self.functions.len()
            invariant
                i <= self.functions@.len(),
                parts@.len() == i,
                forall|k: int|
                    0 <= k < i ==> (#[trigger] parts@[k])@ == self.functions@[k].text(),
            decreases self.functions@.len() - i,
        {
            let function = self.functions[i].convert();
            parts.push(function);
            i = i + 1;
        }
        if let Some(entry) = self.main {
            let mut wrapper = String::from_str("int main(void) { return ");
            let identifier = entry.convert();
            wrapper.append(identifier.as_str());
            wrapper.append("(); }");
            parts.push(wrapper);
        }
        assert(views(parts@) =~= function_texts(self.functions@) + entry_texts(self.main));
        join_strings(&parts, "\n\n")
    }
}

} // verus!
