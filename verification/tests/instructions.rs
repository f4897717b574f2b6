use translator::{Comparison, Convert, Identifier, Instruction, Plus, Type, Variable};

fn variable(index: usize) -> Variable {
    Variable { identifier: Identifier::new(index), ty: Type::Int32 }
}

fn leading_tabs(line: &str) -> usize {
    line.chars().take_while(|c| *c == '\t').count()
}

#[test]
fn return_renders_expression_and_semicolon() {
    assert_eq!(Instruction::Return(Box::new(0)).convert(), "return 0;");
    let n = Identifier::new(2);
    assert_eq!(
        Instruction::Return(Box::new(Plus(n, 1))).convert(),
        "return identifier_2 + 1;"
    );
}

#[test]
fn assign_renders_target_and_expression() {
    let x = Identifier::new(5);
    assert_eq!(Instruction::Assign(x, Box::new(17)).convert(), "identifier_5 = 17;");
}

#[test]
fn declare_renders_type_and_identifier() {
    assert_eq!(Instruction::Declare(variable(6)).convert(), "int identifier_6;");
}

#[test]
fn write_ln_renders_formatted_output() {
    assert_eq!(
        Instruction::WriteLn(variable(7)).convert(),
        "printf(\"%d\", identifier_7);"
    );
}

#[test]
fn read_ln_renders_declaration_then_formatted_input() {
    assert_eq!(
        Instruction::ReadLn(variable(7)).convert(),
        "int identifier_7;\nscanf(\"%d\", &identifier_7);\n"
    );
}

#[test]
fn read_ln_is_the_body_of_its_two_instructions() {
    let expansion = vec![
        Instruction::Declare(variable(7)),
        Instruction::Custom("scanf(\"%d\", &identifier_7);".to_string()),
    ];
    assert_eq!(Instruction::ReadLn(variable(7)).convert(), (0, &expansion).convert());
    let body = vec![Instruction::ReadLn(variable(7))];
    assert_eq!(
        body.convert(),
        format!("\t{}\n", (1, &expansion).convert())
    );
    assert_eq!(
        body.convert(),
        "\t\tint identifier_7;\n\tscanf(\"%d\", &identifier_7);\n\n"
    );
}

#[test]
fn custom_renders_verbatim() {
    let text = "  goto end; /* \t kept as is */\n";
    assert_eq!(Instruction::Custom(text.to_string()).convert(), text);
    assert_eq!(Instruction::Custom(String::new()).convert(), "");
}

#[test]
fn if_renders_condition_and_indented_body() {
    let n = Identifier::new(1);
    let instruction = Instruction::If {
        condition: Box::new(Comparison::Equals(n, 0)),
        instructions: vec![Instruction::Return(Box::new(0))],
    };
    assert_eq!(instruction.convert(), "if (identifier_1 == 0) {\n\treturn 0;\n}");
}

#[test]
fn while_renders_condition_and_indented_body() {
    let n = Identifier::new(1);
    let instruction = Instruction::While {
        condition: Box::new(Comparison::GreaterThan(n, 0)),
        instructions: vec![
            Instruction::Assign(n, Box::new(Plus(n, 1))),
            Instruction::WriteLn(variable(1)),
        ],
    };
    assert_eq!(
        instruction.convert(),
        "while (identifier_1 > 0) {\n\tidentifier_1 = identifier_1 + 1;\n\tprintf(\"%d\", identifier_1);\n}"
    );
}

#[test]
fn block_with_empty_body_closes_at_once() {
    let n = Identifier::new(1);
    let instruction = Instruction::If {
        condition: Box::new(n),
        instructions: vec![],
    };
    assert_eq!(instruction.convert(), "if (identifier_1) {\n}");
}

#[test]
fn nested_assign_is_two_levels_below_while() {
    let a = Identifier::new(0);
    let b = Identifier::new(1);
    let body = vec![Instruction::While {
        condition: Box::new(Comparison::NotEquals(a, b)),
        instructions: vec![Instruction::If {
            condition: Box::new(Comparison::GreaterThan(a, b)),
            instructions: vec![Instruction::Assign(b, Box::new(a))],
        }],
    }];
    let text = body.convert();
    assert_eq!(
        text,
        "\twhile (identifier_0 != identifier_1) {\n\t\tif (identifier_0 > identifier_1) {\n\t\t\tidentifier_1 = identifier_0;\n}\n}\n"
    );
    let lines: Vec<&str> = text.lines().collect();
    let while_line = lines.iter().find(|line| line.contains("while (")).unwrap();
    let if_line = lines.iter().find(|line| line.contains("if (")).unwrap();
    let assign_line = lines.iter().find(|line| line.contains(" = ")).unwrap();
    assert_eq!(leading_tabs(if_line), leading_tabs(while_line) + 1);
    assert_eq!(leading_tabs(assign_line), leading_tabs(while_line) + 2);
}

#[test]
fn nested_assign_is_two_levels_below_while_at_any_depth() {
    let a = Identifier::new(0);
    let b = Identifier::new(1);
    let body = vec![Instruction::While {
        condition: Box::new(Comparison::NotEquals(a, b)),
        instructions: vec![Instruction::If {
            condition: Box::new(Comparison::LessThan(a, b)),
            instructions: vec![Instruction::Assign(a, Box::new(b))],
        }],
    }];
    for depth in 0usize..5 {
        let text = (depth, &body).convert();
        let lines: Vec<&str> = text.lines().collect();
        assert_eq!(leading_tabs(lines[0]), depth);
        assert_eq!(leading_tabs(lines[1]), depth + 1);
        assert_eq!(leading_tabs(lines[2]), depth + 2);
        assert_eq!(lines[2].trim_start_matches('\t'), "identifier_0 = identifier_1;");
    }
}

#[test]
fn standalone_while_puts_nested_assign_behind_two_tabs() {
    let a = Identifier::new(0);
    let b = Identifier::new(1);
    let instruction = Instruction::While {
        condition: Box::new(Comparison::NotEquals(a, b)),
        instructions: vec![Instruction::If {
            condition: Box::new(Comparison::GreaterThan(a, b)),
            instructions: vec![Instruction::Assign(b, Box::new(a))],
        }],
    };
    assert_eq!(
        instruction.convert(),
        "while (identifier_0 != identifier_1) {\n\tif (identifier_0 > identifier_1) {\n\t\tidentifier_1 = identifier_0;\n}\n}"
    );
}

#[test]
fn body_renders_one_line_per_instruction() {
    let body = vec![
        Instruction::Declare(variable(2)),
        Instruction::Assign(Identifier::new(2), Box::new(4)),
        Instruction::Return(Box::new(Identifier::new(2))),
    ];
    assert_eq!(
        body.convert(),
        "\tint identifier_2;\n\tidentifier_2 = 4;\n\treturn identifier_2;\n"
    );
}

#[test]
fn body_of_a_function_has_depth_one() {
    let body = vec![Instruction::Return(Box::new(1))];
    assert_eq!(body.convert(), (1, &body).convert());
}

#[test]
fn body_renders_at_the_given_depth() {
    let body = vec![
        Instruction::Return(Box::new(1)),
        Instruction::Custom("done();".to_string()),
    ];
    assert_eq!((0, &body).convert(), "return 1;\ndone();\n");
    assert_eq!((3, &body).convert(), "\t\t\treturn 1;\n\t\t\tdone();\n");
}

#[test]
fn empty_body_renders_nothing() {
    let body: Vec<Instruction> = vec![];
    assert_eq!(body.convert(), "");
    assert_eq!((4, &body).convert(), "");
}

#[test]
fn rendering_an_instruction_twice_gives_the_same_text() {
    let n = Identifier::new(1);
    let instruction = Instruction::While {
        condition: Box::new(Comparison::LessThan(n, 10)),
        instructions: vec![Instruction::ReadLn(variable(2))],
    };
    assert_eq!(instruction.convert(), instruction.convert());
}
