//! What holds of every program and of every run of allocations, proved from
//! the rules of the nodes.
use crate::expression::{argument_texts, Call};
use crate::identifier::{Identifier, IdentifierFactory};
use crate::instruction::{
    body_text, input_statement, instruction_text, lemma_body_of_one, lemma_body_text,
    lemma_instruction_text, line, Instruction,
};
use crate::program::{entry_texts, entry_wrapper, function_texts, Function, Graph};
use crate::text::{decimal, join, Convert};
use crate::variable::{Type, Variable};
use vstd::prelude::*;

verus! {

/// Rendering is deterministic: whatever two calls of `convert` return for
/// one node, it is the same text.
pub proof fn lemma_rendering_is_deterministic<T: Convert + ?Sized>(
    node: &T,
    first: String,
    second: String,
)
    requires
        call_ensures(T::convert, (node,), first),
        call_ensures(T::convert, (node,), second),
    ensures
        first@ == second@,
{
}

/// A run of allocations on one factory: `factories[k]` is the factory
/// before the allocation `k`, which issues `identifiers[k]` and leaves
/// `factories[k + 1]`.
pub open spec fn allocation_run(
    factories: Seq<IdentifierFactory>,
    identifiers: Seq<Identifier>,
) -> bool {
    &&& factories.len() == identifiers.len() + 1
    &&& forall|k: int|
        0 <= k < identifiers.len() ==> factories[k].issues(
            #[trigger] identifiers[k],
            factories[k + 1],
        )
}

/// Successive allocations count up from where the factory stood: the
/// indices increase strictly, no two identifiers of a run are equal, and a
/// factory that has issued nothing starts at 0.
pub proof fn lemma_allocations_increase(
    factories: Seq<IdentifierFactory>,
    identifiers: Seq<Identifier>,
)
    requires
        allocation_run(factories, identifiers),
    ensures
        forall|k: int|
            0 <= k < identifiers.len() ==> (#[trigger] identifiers[k]).index()
                == factories[0].next_index() + k,
        forall|i: int, j: int|
            0 <= i < j < identifiers.len() ==> (#[trigger] identifiers[i]).index() < (
            #[trigger] identifiers[j]).index(),
        forall|i: int, j: int|
            0 <= i < j < identifiers.len() ==> (#[trigger] identifiers[i]) != (
            #[trigger] identifiers[j]),
        factories[0].next_index() == 0 ==> forall|k: int|
            0 <= k < identifiers.len() ==> (#[trigger] identifiers[k]).index() == k,
    decreases identifiers.len(),
{
    if identifiers.len() > 0 {
        let last = identifiers.len() - 1;
        assert(factories[last].issues(identifiers[last], factories[last + 1]));
        let earlier_factories = factories.drop_last();
        let earlier = identifiers.drop_last();
        assert forall|k: int| 0 <= k < earlier.len() implies earlier_factories[k].issues(
            #[trigger] earlier[k],
            earlier_factories[k + 1],
        ) by {
            assert(factories[k].issues(identifiers[k], factories[k + 1]));
        }
        lemma_allocations_increase(earlier_factories, earlier);
        assert forall|k: int| 0 <= k < identifiers.len() implies (
        #[trigger] identifiers[k]).index() == factories[0].next_index() + k by {
            if k < last {
                assert(earlier[k].index() == earlier_factories[0].next_index() + k);
            } else if last > 0 {
                assert(earlier[last - 1].index() == earlier_factories[0].next_index() + last
                    - 1);
                assert(factories[last - 1].issues(identifiers[last - 1], factories[last]));
            }
        }
    }
}

/// `needle` stands somewhere in `text`.
pub open spec fn occurs_in(needle: Seq<char>, text: Seq<char>) -> bool {
    exists|start: int|
        0 <= start && start + needle.len() <= text.len() && #[trigger] text.subrange(
            start,
            start + needle.len(),
        ) == needle
}

/// A function without parameters renders an empty parameter list: `()`
/// follows its identifier.
pub proof fn lemma_no_parameters_render_empty_list(function: Function)
    requires
        function.parameters@.len() == 0,
    ensures
        function.text() == function.returns.text() + " "@ + function.identifier.text() + "()"@
            + " {\n"@ + body_text(function.instructions@, 1) + "}"@,
        occurs_in("()"@, function.text()),
{
    reveal_strlit("(");
    reveal_strlit(") {\n");
    reveal_strlit("()");
    reveal_strlit(" {\n");
    let head = function.returns.text() + " "@ + function.identifier.text();
    let tail = " {\n"@ + body_text(function.instructions@, 1) + "}"@;
    let text = function.text();
    assert(text =~= head + "()"@ + tail);
    assert(text =~= function.returns.text() + " "@ + function.identifier.text() + "()"@
        + " {\n"@ + body_text(function.instructions@, 1) + "}"@);
    let start = head.len() as int;
    assert(text.subrange(start, start + "()"@.len()) =~= "()"@);
}

/// A call without arguments renders empty parentheses behind its target.
pub proof fn lemma_call_without_arguments<A: Convert>(call: Call<A>)
    requires
        call.1@.len() == 0,
    ensures
        call.text() == call.0.text() + "()"@,
{
    reveal_strlit("(");
    reveal_strlit(")");
    reveal_strlit("()");
    assert(call.text() =~= call.0.text() + "()"@);
}

/// A call renders its arguments in the order in which they stand, with
/// `", "` between neighbours and nothing after the last.
pub proof fn lemma_call_of_three_arguments<A: Convert>(call: Call<A>)
    requires
        call.1@.len() == 3,
    ensures
        call.text() == call.0.text() + "("@ + call.1@[0].text() + ", "@ + call.1@[1].text()
            + ", "@ + call.1@[2].text() + ")"@,
{
    let parts = argument_texts(call.1@);
    let two = parts.drop_last();
    let one = two.drop_last();
    assert(join(one, ", "@) == parts[0]);
    assert(join(two, ", "@) == join(one, ", "@) + ", "@ + parts[1]);
    assert(join(parts, ", "@) == join(two, ", "@) + ", "@ + parts[2]);
}

/// The last line of `text`: what follows its last newline.
pub open spec fn last_line(text: Seq<char>) -> Seq<char>
    decreases text.len(),
{
    if text.len() == 0 || text.last() == '\n' {
        Seq::empty()
    } else {
        last_line(text.drop_last()).push(text.last())
    }
}

/// No newline stands in `text`.
pub open spec fn single_line(text: Seq<char>) -> bool {
    forall|i: int| 0 <= i < text.len() ==> text[i] != '\n'
}

/// A number in decimal holds no newline.
pub proof fn lemma_decimal_is_single_line(n: nat)
    ensures
        single_line(decimal(n)),
    decreases n,
{
    if n >= 10 {
        lemma_decimal_is_single_line(n / 10);
    }
}

/// The entry wrapper is one line.
pub proof fn lemma_entry_wrapper_is_single_line(entry: Identifier)
    ensures
        single_line(entry_wrapper(entry)),
        entry_wrapper(entry) == "int main(void) { return identifier_"@ + decimal(entry.index())
            + "(); }"@,
{
    reveal_strlit("int main(void) { return ");
    reveal_strlit("identifier_");
    reveal_strlit("int main(void) { return identifier_");
    reveal_strlit("(); }");
    lemma_decimal_is_single_line(entry.index());
    assert(entry_wrapper(entry) =~= "int main(void) { return identifier_"@ + decimal(
        entry.index(),
    ) + "(); }"@);
}

/// Behind a newline, or at the start of the text, a text without newlines
/// is the last line.
pub proof fn lemma_last_line_of_suffix(before: Seq<char>, suffix: Seq<char>)
    requires
        before.len() == 0 || before.last() == '\n',
        single_line(suffix),
    ensures
        last_line(before + suffix) == suffix,
    decreases suffix.len(),
{
    if suffix.len() == 0 {
        assert(before + suffix =~= before);
    } else {
        let text = before + suffix;
        assert(text.last() == suffix.last());
        assert(text.drop_last() =~= before + suffix.drop_last());
        lemma_last_line_of_suffix(before, suffix.drop_last());
        assert(suffix.drop_last().push(suffix.last()) =~= suffix);
    }
}

/// A program with an entry point ends with the entry wrapper on a line of
/// its own: `int main(void) { return identifier_<n>(); }`, where `<n>` is
/// the index of the entry point. Behind functions, a blank line comes
/// before it.
pub proof fn lemma_entry_wrapper_is_last_line(graph: Graph)
    requires
        graph.main is Some,
    ensures
        last_line(graph.text()) == entry_wrapper(graph.main->0),
        entry_wrapper(graph.main->0) == "int main(void) { return identifier_"@ + decimal(
            graph.main->0.index(),
        ) + "(); }"@,
        graph.functions@.len() > 0 ==> graph.text() == join(
            function_texts(graph.functions@),
            "\n\n"@,
        ) + "\n\n"@ + entry_wrapper(graph.main->0),
        graph.functions@.len() == 0 ==> graph.text() == entry_wrapper(graph.main->0),
{
    let entry = graph.main->0;
    let wrapper = entry_wrapper(entry);
    let functions = function_texts(graph.functions@);
    let parts = functions + entry_texts(graph.main);
    reveal_strlit("\n\n");
    lemma_entry_wrapper_is_single_line(entry);
    assert(parts.last() == wrapper);
    assert(parts.drop_last() =~= functions);
    if graph.functions@.len() == 0 {
        lemma_last_line_of_suffix(Seq::empty(), wrapper);
        assert(Seq::<char>::empty() + wrapper =~= wrapper);
    } else {
        let before = join(functions, "\n\n"@) + "\n\n"@;
        assert(before.last() == '\n');
        lemma_last_line_of_suffix(before, wrapper);
    }
}

/// Whether `outer` is a `While` whose body is one `If` whose body is one
/// `Assign`.
pub open spec fn is_while_if_assign(outer: Instruction) -> bool {
    &&& outer matches Instruction::While { instructions, .. }
    &&& instructions@.len() == 1
    &&& instructions@[0] matches Instruction::If { instructions: inner, .. }
    &&& inner@.len() == 1
    &&& inner@[0] is Assign
}

/// A `While` that holds one `If` that holds one `Assign`: the `If` stands
/// one level below the line of the `While`, and the `Assign` two levels
/// below it.
pub proof fn lemma_nested_assign_is_two_levels_deeper(outer: Instruction, depth: nat)
    requires
        is_while_if_assign(outer),
    ensures
        outer matches Instruction::While { condition, instructions } ==> (
        instructions@[0] matches Instruction::If { condition: test, instructions: inner } ==> (
        inner@[0] matches Instruction::Assign(target, value) ==> line(
            depth,
            instruction_text(outer, depth),
        ) == line(
            depth,
            "while ("@ + condition.text() + ") {\n"@ + line(
                depth + 1,
                "if ("@ + test.text() + ") {\n"@ + line(
                    depth + 2,
                    target.text() + " = "@ + value.text() + ";"@,
                ) + "}"@,
            ) + "}"@,
        ))),
{
    match outer {
        Instruction::While { condition, instructions } => {
            let inner_if = instructions@[0];
            assert(instructions@ =~= seq![inner_if]);
            lemma_instruction_text(outer, depth);
            lemma_body_of_one(inner_if, depth + 1);
            match inner_if {
                Instruction::If { condition: test, instructions: inner } => {
                    let assign = inner@[0];
                    assert(inner@ =~= seq![assign]);
                    lemma_instruction_text(inner_if, depth + 1);
                    lemma_body_of_one(assign, depth + 2);
                    lemma_instruction_text(assign, depth + 2);
                },
                _ => {},
            }
        },
        _ => {},
    }
}

/// `ReadLn` renders as the body of the two instructions that it stands
/// for: the declaration of the variable, and the input statement as custom
/// text.
pub proof fn lemma_read_ln_expands(variable: Variable, input: String, depth: nat)
    requires
        input@ == input_statement(variable),
    ensures
        instruction_text(Instruction::ReadLn(variable), depth) == body_text(
            seq![Instruction::Declare(variable), Instruction::Custom(input)],
            depth,
        ),
{
    let declare = Instruction::Declare(variable);
    let custom = Instruction::Custom(input);
    let body = seq![declare, custom];
    assert(body.drop_last() =~= seq![declare]);
    lemma_body_text(body, depth);
    lemma_body_of_one(declare, depth);
    lemma_instruction_text(declare, depth);
    lemma_instruction_text(custom, depth);
    lemma_instruction_text(Instruction::ReadLn(variable), depth);
}

/// The program of one function that takes nothing and returns 0, with that
/// function as its entry point: the text in full, for identifier 0.
pub proof fn lemma_program_returning_zero(graph: Graph)
    requires
        graph.functions@.len() == 1,
        graph.functions@[0].identifier.index() == 0,
        graph.functions@[0].parameters@.len() == 0,
        graph.functions@[0].returns == Type::Int32,
        graph.functions@[0].instructions@.len() == 1,
        graph.functions@[0].instructions@[0] matches Instruction::Return(value) && value.text()
            == decimal(0),
        graph.main matches Some(entry) && entry.index() == 0,
    ensures
        graph.text()
            == "int identifier_0() {\n\treturn 0;\n}\n\nint main(void) { return identifier_0(); }"@,
{
    let function = graph.functions@[0];
    let entry = graph.main->0;
    let statement = function.instructions@[0];
    reveal_strlit("int");
    reveal_strlit(" ");
    reveal_strlit("identifier_");
    reveal_strlit("(");
    reveal_strlit(", ");
    reveal_strlit(") {\n");
    reveal_strlit("return ");
    reveal_strlit(";");
    reveal_strlit("\n");
    reveal_strlit("}");
    reveal_strlit("\n\n");
    reveal_strlit("int main(void) { return ");
    reveal_strlit("(); }");
    reveal_strlit(
        "int identifier_0() {\n\treturn 0;\n}\n\nint main(void) { return identifier_0(); }",
    );
    assert(function.instructions@ =~= seq![statement]);
    lemma_body_of_one(statement, 1);
    lemma_instruction_text(statement, 1);
    assert(function.text() =~= "int identifier_0() {\n\treturn 0;\n}"@) by {
        reveal_strlit("int identifier_0() {\n\treturn 0;\n}");
    }
    let parts = function_texts(graph.functions@) + entry_texts(graph.main);
    assert(parts =~= seq![function.text(), entry_wrapper(entry)]);
    assert(parts.drop_last() =~= seq![function.text()]);
    assert(join(parts.drop_last(), "\n\n"@) == function.text());
    assert(graph.text() =~= function.text() + "\n\n"@ + entry_wrapper(entry));
}

} // verus!
