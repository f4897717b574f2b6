//! Instructions, and the rendering of instruction lists with indentation.
//!
//! A body is a list of instructions. It renders one instruction after the
//! other, each behind the indentation of the body's nesting depth and
//! followed by a newline. The body of a function has depth 1, and the body
//! of an `If` or a `While` lies one level below the line that opens it.
use crate::identifier::Identifier;
use crate::text::{deeper, indentation, tabs, Convert};
use crate::variable::Variable;
use vstd::prelude::*;

verus! {

/// One instruction of a body.
pub enum Instruction {
    /// Declares the variable and reads a number from the input into it.
    ReadLn(Variable),
    /// Writes the value of the variable to the output.
    WriteLn(Variable),
    /// Declares the variable.
    Declare(Variable),
    /// Returns the value of the expression from the function.
    Return(Box<dyn Convert>),
    /// Stores the value of the expression under the identifier.
    Assign(Identifier, Box<dyn Convert>),
    /// Runs the instructions if the condition holds.
    If { condition: Box<dyn Convert>, instructions: Vec<Instruction> },
    /// Runs the instructions for as long as the condition holds.
    While { condition: Box<dyn Convert>, instructions: Vec<Instruction> },
    /// Text of the target language, taken as it is. It ties a program to
    /// that one language, so it is best avoided.
    Custom(String),
}

/// One line of a body at `depth`: the indentation, the statement, a newline.
pub open spec fn line(depth: nat, statement: Seq<char>) -> Seq<char> {
    tabs(depth) + statement + "\n"@
}

/// The statement that declares `variable`.
pub open spec fn declare_statement(variable: Variable) -> Seq<char> {
    variable.declaration() + ";"@
}

/// The statement of the target language that reads a number into `variable`.
pub open spec fn input_statement(variable: Variable) -> Seq<char> {
    "scanf(\"%d\", &"@ + variable.identifier.text() + ");"@
}

/// The statement of the target language that prints `variable`.
pub open spec fn output_statement(variable: Variable) -> Seq<char> {
    "printf(\"%d\", "@ + variable.identifier.text() + ");"@
}

/// The text of `instruction` where its own line has nesting depth `depth`.
///
/// `ReadLn` stands for two instructions, the declaration and the input
/// statement, and renders as the body made of these two at `depth`. The body
/// of an `If` or a `While` renders at `depth + 1`, and the closing brace
/// follows it directly.
pub open spec fn instruction_text(instruction: Instruction, depth: nat) -> Seq<char>
    decreases instruction,
{
    match instruction {
        Instruction::ReadLn(variable) => line(depth, declare_statement(variable)) + line(
            depth,
            input_statement(variable),
        ),
        Instruction::WriteLn(variable) => output_statement(variable),
        Instruction::Declare(variable) => declare_statement(variable),
        Instruction::Return(value) => "return "@ + value.text() + ";"@,
        Instruction::Assign(identifier, value) => identifier.text() + " = "@ + value.text()
            + ";"@,
        Instruction::If { condition, instructions } => "if ("@ + condition.text() + ") {\n"@
            + body_text(instructions@, depth + 1) + "}"@,
        Instruction::While { condition, instructions } => "while ("@ + condition.text()
            + ") {\n"@ + body_text(instructions@, depth + 1) + "}"@,
        Instruction::Custom(content) => content@,
    }
}

/// The text of a body at nesting depth `depth`: a line for each instruction,
/// in order.
pub open spec fn body_text(instructions: Seq<Instruction>, depth: nat) -> Seq<char>
    decreases instructions,
{
    if instructions.len() == 0 {
        Seq::empty()
    } else {
        body_text(instructions.drop_last(), depth) + line(
            depth,
            instruction_text(instructions.last(), depth),
        )
    }
}

/// The rule of `instruction_text` as an equation.
///
/// Verus applies the rule by itself to an instruction that a function was
/// handed. Of an instruction that was built in place, around trait objects
/// made there, a proof learns the rule from this call.
pub proof fn lemma_instruction_text(instruction: Instruction, depth: nat)
    ensures
        instruction_text(instruction, depth) == (match instruction {
            Instruction::ReadLn(variable) => line(depth, declare_statement(variable)) + line(
                depth,
                input_statement(variable),
            ),
            Instruction::WriteLn(variable) => output_statement(variable),
            Instruction::Declare(variable) => declare_statement(variable),
            Instruction::Return(value) => "return "@ + value.text() + ";"@,
            Instruction::Assign(identifier, value) => identifier.text() + " = "@ + value.text()
                + ";"@,
            Instruction::If { condition, instructions } => "if ("@ + condition.text()
                + ") {\n"@ + body_text(instructions@, depth + 1) + "}"@,
            Instruction::While { condition, instructions } => "while ("@ + condition.text()
                + ") {\n"@ + body_text(instructions@, depth + 1) + "}"@,
            Instruction::Custom(content) => content@,
        }),
{
}

/// The rule of `body_text` as an equation, for the same use: an empty body
/// is the empty text, and any other is the body without its last
/// instruction, then the line of the last.
pub proof fn lemma_body_text(instructions: Seq<Instruction>, depth: nat)
    ensures
        instructions.len() == 0 ==> body_text(instructions, depth) == Seq::<char>::empty(),
        instructions.len() > 0 ==> body_text(instructions, depth) == body_text(
            instructions.drop_last(),
            depth,
        ) + line(depth, instruction_text(instructions.last(), depth)),
{
}

/// A body of one instruction is the line of that instruction.
pub proof fn lemma_body_of_one(instruction: Instruction, depth: nat)
    ensures
        body_text(seq![instruction], depth) == line(depth, instruction_text(instruction, depth)),
{
    let body = seq![instruction];
    lemma_body_text(body, depth);
    lemma_body_text(body.drop_last(), depth);
    assert(body_text(body, depth) =~= line(depth, instruction_text(instruction, depth)));
}

/// Renders the statement that declares `variable`.
fn render_declare(variable: &Variable) -> (s: String)
    ensures
        s@ == declare_statement(*variable),
{
    let mut s = variable.declare();
    s.append(";");
    s
}

/// Renders `opening`, the identifier of `variable` and `");"`.
fn render_io(opening: &str, variable: &Variable) -> (s: String)
    ensures
        s@ == opening@ + variable.identifier.text() + ");"@,
{
    let mut s = String::from_str(opening);
    let identifier = variable.identifier.convert();
    s.append(identifier.as_str());
    s.append(");");
    s
}

/// Appends to `text` one line of a body: `indent`, `statement`, a newline.
fn push_line(text: &mut String, indent: &String, statement: &String)
    requires
        indent@ == tabs(indent@.len()),
    ensures
        final(text)@ == old(text)@ + line(indent@.len(), statement@),
{
    text.append(indent.as_str());
    text.append(statement.as_str());
    text.append("\n");
    assert(text@ =~= old(text)@ + line(indent@.len(), statement@));
}

/// Renders a block: `keyword`, the condition in parentheses, and the body in
/// braces, one level below `indent`.
fn render_block(
    keyword: &str,
    condition: &Box<dyn Convert>,
    instructions: &Vec<Instruction>,
    indent: &String,
) -> (s: String)
    requires
        indent@ == tabs(indent@.len()),
    ensures
        s@ == keyword@ + condition.text() + ") {\n"@ + body_text(
            instructions@,
            indent@.len() + 1,
        ) + "}"@,
    decreases instructions, 1nat,
{
    let mut s = String::from_str(keyword);
    let condition_text = condition.convert();
    let inner = deeper(indent);
    let body = render_body(instructions, &inner);
    s.append(condition_text.as_str());
    s.append(") {\n");
    s.append(body.as_str());
    s.append("}");
    s
}

/// Renders `instruction` where its own line is indented by `indent`.
pub(crate) fn render_instruction(instruction: &Instruction, indent: &String) -> (s: String)
    requires
        indent@ == tabs(indent@.len()),
    ensures
        s@ == instruction_text(*instruction, indent@.len()),
    decreases instruction, 0nat,
{
    match instruction {
        Instruction::ReadLn(variable) => {
            let declaration = render_declare(variable);
            let input = render_io("scanf(\"%d\", &", variable);
            let mut s = String::new();
            push_line(&mut s, indent, &declaration);
            push_line(&mut s, indent, &input);
            assert(s@ =~= instruction_text(*instruction, indent@.len()));
            s
        },
        Instruction::WriteLn(variable) => render_io("printf(\"%d\", ", variable),
        Instruction::Declare(variable) => render_declare(variable),
        Instruction::Return(value) => {
            let mut s = String::from_str("return ");
            let value_text = value.convert();
            s.append(value_text.as_str());
            s.append(";");
            s
        },
        Instruction::Assign(identifier, value) => {
            let mut s = identifier.convert();
            let value_text = value.convert();
            s.append(" = ");
            s.append(value_text.as_str());
            s.append(";");
            s
        },
        Instruction::If { condition, instructions } => render_block(
            "if (",
            condition,
            instructions,
            indent,
        ),
        Instruction::While { condition, instructions } => render_block(
            "while (",
            condition,
            instructions,
            indent,
        ),
        Instruction::Custom(content) => content.clone(),
    }
}

/// Renders a body whose lines are indented by `indent`.
pub(crate) fn render_body(instructions: &Vec<Instruction>, indent: &String) -> (s: String)
    requires
        indent@ == tabs(indent@.len()),
    ensures
        s@ == body_text(instructions@, indent@.len()),
    decreases instructions, 0nat,
{
    let mut s = String::new();
    let mut i: usize = 0;
    while i < instructions.len()
        invariant
            i <= instructions@.len(),
            indent@ == tabs(indent@.len()),
            s@ == body_text(instructions@.take(i as int), indent@.len()),
        decreases instructions@.len() - i,
    {
        let statement = render_instruction(&instructions[i], indent);
        push_line(&mut s, indent, &statement);
        proof {
            assert(instructions@.take(i + 1).drop_last() =~= instructions@.take(i as int));
        }
        i = i + 1;
    }
    proof {
        assert(instructions@.take(i as int) =~= instructions@);
    }
    s
}

impl Convert for Instruction {
    /// The instruction on a line of its own, outside any body: depth 0.
    open spec fn text(&self) -> Seq<char> {
        instruction_text(*self, 0)
    }

    fn convert(&self) -> (s: String) {
        let indent = indentation(0);
        render_instruction(self, &indent)
    }
}

impl<'a> Convert for (usize, &'a Vec<Instruction>) {
    /// The instructions as a body at the nesting depth that comes with
    /// them.
    open spec fn text(&self) -> Seq<char> {
        body_text(self.1@, self.0 as nat)
    }

    fn convert(&self) -> (s: String) {
        let indent = indentation(self.0);
        render_body(self.1, &indent)
    }
}

impl Convert for Vec<Instruction> {
    /// The instructions as the body of a function: depth 1.
    open spec fn text(&self) -> Seq<char> {
        body_text(self@, 1)
    }

    fn convert(&self) -> (s: String) {
        let indent = indentation(1);
        render_body(self, &indent)
    }
}

} // verus!
