use shader_layout::error::{GenerationError, InstructionKind};
use shader_layout::graph::{Instruction, Module, Query};

fn name(target: u32, text: &str) -> Instruction {
    Instruction::Name { target, name: text.to_string() }
}

fn member_name(target: u32, member: u32, text: &str) -> Instruction {
    Instruction::MemberName { target, member, name: text.to_string() }
}

fn sample() -> Module {
    Module::new(vec![
        name(3, "Light"),
        name(3, "Lamp"),
        member_name(3, 1, "color"),
        member_name(3, 0, "position"),
        member_name(3, 0, "origin"),
        Instruction::TypeFloat { result_id: 1, width: 32 },
        Instruction::TypeVector { result_id: 2, component_type: 1, component_count: 3 },
        Instruction::TypeStruct { result_id: 3, member_types: vec![2, 2] },
        Instruction::Other { assigns: Some(9) },
        Instruction::Other { assigns: None },
    ])
    .unwrap()
}

#[test]
fn a_module_keeps_its_instructions_in_order() {
    let module = sample();
    assert_eq!(module.len(), 10);
    assert_eq!(module.get(0), &name(3, "Light"));
    assert_eq!(module.get(5), &Instruction::TypeFloat { result_id: 1, width: 32 });
    assert_eq!(module.get(9), &Instruction::Other { assigns: None });
}

#[test]
fn an_id_assigned_twice_is_malformed() {
    let built = Module::new(vec![
        Instruction::TypeFloat { result_id: 1, width: 32 },
        Instruction::TypeInt { result_id: 2, width: 32 },
        Instruction::TypeVector { result_id: 1, component_type: 2, component_count: 2 },
    ]);
    assert_eq!(built.err(), Some(GenerationError::MalformedBinary));
}

#[test]
fn an_id_assigned_twice_by_other_instructions_is_malformed() {
    let built = Module::new(vec![
        Instruction::Other { assigns: Some(4) },
        Instruction::TypeStruct { result_id: 4, member_types: vec![] },
    ]);
    assert_eq!(built.err(), Some(GenerationError::MalformedBinary));
}

#[test]
fn instructions_without_an_id_never_clash() {
    let built = Module::new(vec![
        Instruction::Other { assigns: None },
        Instruction::Other { assigns: None },
        name(1, "a"),
        name(1, "a"),
    ]);
    assert_eq!(built.unwrap().len(), 4);
}

#[test]
fn an_empty_module_is_a_module() {
    let module = Module::new(vec![]).unwrap();
    assert_eq!(module.len(), 0);
    assert_eq!(module.find(Query::Definition(1)), None);
    assert_eq!(module.instruction_of(1), None);
    assert_eq!(module.name_of(1), None);
    assert_eq!(module.member_name_of(1, 0), None);
}

#[test]
fn the_instruction_of_an_id_is_the_one_that_assigns_it() {
    let module = sample();
    assert_eq!(module.instruction_of(1), Some(&Instruction::TypeFloat { result_id: 1, width: 32 }));
    assert_eq!(
        module.instruction_of(3),
        Some(&Instruction::TypeStruct { result_id: 3, member_types: vec![2, 2] })
    );
    assert_eq!(module.instruction_of(9), Some(&Instruction::Other { assigns: Some(9) }));
    assert_eq!(module.instruction_of(4), None);
    assert_eq!(module.find(Query::Definition(2)), Some(6));
}

#[test]
fn the_first_name_of_an_id_is_its_name() {
    let module = sample();
    assert_eq!(module.name_of(3), Some(&"Light".to_string()));
    assert_eq!(module.name_of(2), None);
    assert_eq!(module.find(Query::Name(3)), Some(0));
}

#[test]
fn a_member_is_named_by_aggregate_and_index() {
    let module = sample();
    assert_eq!(module.member_name_of(3, 0), Some(&"position".to_string()));
    assert_eq!(module.member_name_of(3, 1), Some(&"color".to_string()));
    assert_eq!(module.member_name_of(3, 2), None);
    assert_eq!(module.member_name_of(2, 0), None);
    assert_eq!(module.find(Query::MemberName(3, 0)), Some(3));
}

#[test]
fn each_instruction_knows_its_kind_and_its_id() {
    let module = sample();
    let kinds: Vec<InstructionKind> = (0..module.len()).map(|at| module.get(at).kind()).collect();
    assert_eq!(
        kinds,
        vec![
            InstructionKind::Name,
            InstructionKind::Name,
            InstructionKind::MemberName,
            InstructionKind::MemberName,
            InstructionKind::MemberName,
            InstructionKind::TypeFloat,
            InstructionKind::TypeVector,
            InstructionKind::TypeStruct,
            InstructionKind::Other,
            InstructionKind::Other,
        ]
    );
    let ids: Vec<Option<u32>> = (0..module.len()).map(|at| module.get(at).result_id()).collect();
    assert_eq!(
        ids,
        vec![None, None, None, None, None, Some(1), Some(2), Some(3), Some(9), None]
    );
    assert_eq!(Instruction::TypeInt { result_id: 7, width: 32 }.kind(), InstructionKind::TypeInt);
    assert_eq!(
        Instruction::TypeMatrix { result_id: 8, column_type: 2, column_count: 3 }.kind(),
        InstructionKind::TypeMatrix
    );
}

#[test]
fn an_instruction_answers_only_its_own_question() {
    let float = Instruction::TypeFloat { result_id: 1, width: 32 };
    assert!(float.answers(Query::Definition(1)));
    assert!(!float.answers(Query::Definition(2)));
    assert!(!float.answers(Query::Name(1)));
    assert!(!float.answers(Query::MemberName(1, 0)));
    let named = name(1, "x");
    assert!(named.answers(Query::Name(1)));
    assert!(!named.answers(Query::Name(2)));
    assert!(!named.answers(Query::Definition(1)));
    let member = member_name(1, 2, "y");
    assert!(member.answers(Query::MemberName(1, 2)));
    assert!(!member.answers(Query::MemberName(1, 1)));
    assert!(!member.answers(Query::MemberName(2, 2)));
    assert!(!member.answers(Query::Name(1)));
    assert!(!Instruction::Other { assigns: None }.answers(Query::Definition(0)));
}
