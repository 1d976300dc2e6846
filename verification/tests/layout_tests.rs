use shader_layout::error::{GenerationError, InstructionKind};
use shader_layout::graph::{Instruction, Module};
use shader_layout::layout::{normalize_rows, resolve, ScalarKind, TypeDescriptor};

fn scalar(kind: ScalarKind) -> TypeDescriptor {
    TypeDescriptor::Scalar { kind }
}

fn array(element: TypeDescriptor, length: u32) -> TypeDescriptor {
    TypeDescriptor::FixedArray { element: Box::new(element), length }
}

fn floating(result_id: u32, width: u32) -> Instruction {
    Instruction::TypeFloat { result_id, width }
}

fn integer(result_id: u32, width: u32) -> Instruction {
    Instruction::TypeInt { result_id, width }
}

fn vector(result_id: u32, component_type: u32, component_count: u32) -> Instruction {
    Instruction::TypeVector { result_id, component_type, component_count }
}

fn matrix(result_id: u32, column_type: u32, column_count: u32) -> Instruction {
    Instruction::TypeMatrix { result_id, column_type, column_count }
}

fn module(instructions: Vec<Instruction>) -> Module {
    Module::new(instructions).unwrap()
}

fn slots(layout: &TypeDescriptor) -> u64 {
    match layout {
        TypeDescriptor::Scalar { .. } => 1,
        TypeDescriptor::FixedArray { element, length } => *length as u64 * slots(element),
        TypeDescriptor::NamedReference { .. } => 0,
    }
}

#[test]
fn supported_scalar_widths_resolve_to_their_kind() {
    let module = module(vec![floating(1, 16), floating(2, 32), integer(3, 32)]);
    assert_eq!(resolve(&module, 1), Ok(scalar(ScalarKind::Float16)));
    assert_eq!(resolve(&module, 2), Ok(scalar(ScalarKind::Float32)));
    assert_eq!(resolve(&module, 3), Ok(scalar(ScalarKind::UInt32)));
}

#[test]
fn unsupported_float_widths_fail() {
    for width in [0, 8, 15, 17, 31, 33, 64, u32::MAX] {
        let module = module(vec![floating(1, width)]);
        assert_eq!(
            resolve(&module, 1),
            Err(GenerationError::UnsupportedType(InstructionKind::TypeFloat))
        );
    }
}

#[test]
fn unsupported_int_widths_fail() {
    for width in [0, 8, 16, 31, 33, 64, u32::MAX] {
        let module = module(vec![integer(1, width)]);
        assert_eq!(
            resolve(&module, 1),
            Err(GenerationError::UnsupportedType(InstructionKind::TypeInt))
        );
    }
}

#[test]
fn vectors_of_one_to_four_components_resolve_to_arrays() {
    for count in 1..=4 {
        let module = module(vec![floating(1, 32), integer(2, 32), vector(3, 1, count), vector(4, 2, count)]);
        assert_eq!(resolve(&module, 3), Ok(array(scalar(ScalarKind::Float32), count)));
        assert_eq!(resolve(&module, 4), Ok(array(scalar(ScalarKind::UInt32), count)));
    }
}

#[test]
fn a_vector_fails_as_its_component_type_fails() {
    let module = module(vec![floating(1, 64), vector(2, 1, 3), vector(3, 9, 3)]);
    assert_eq!(
        resolve(&module, 2),
        Err(GenerationError::UnsupportedType(InstructionKind::TypeFloat))
    );
    assert_eq!(resolve(&module, 3), Err(GenerationError::MalformedBinary));
}

#[test]
fn vectors_nest() {
    let module = module(vec![vector(3, 2, 2), vector(2, 1, 3), floating(1, 16)]);
    assert_eq!(
        resolve(&module, 3),
        Ok(array(array(scalar(ScalarKind::Float16), 3), 2))
    );
}

#[test]
fn a_layout_may_pass_through_every_instruction() {
    let mut instructions = vec![integer(0, 32)];
    for id in 1..40 {
        instructions.push(vector(id, id - 1, 2));
    }
    let module = module(instructions);
    let mut expected = scalar(ScalarKind::UInt32);
    for _ in 1..40 {
        expected = array(expected, 2);
    }
    assert_eq!(resolve(&module, 39), Ok(expected));
}

#[test]
fn types_that_nest_without_end_are_malformed() {
    let module = module(vec![vector(1, 2, 2), vector(2, 1, 2), vector(3, 3, 4), floating(4, 32)]);
    assert_eq!(resolve(&module, 1), Err(GenerationError::MalformedBinary));
    assert_eq!(resolve(&module, 2), Err(GenerationError::MalformedBinary));
    assert_eq!(resolve(&module, 3), Err(GenerationError::MalformedBinary));
    assert_eq!(resolve(&module, 4), Ok(scalar(ScalarKind::Float32)));
}

#[test]
fn matrices_of_three_and_of_four_rows_are_stored_with_four() {
    let module = module(vec![
        floating(1, 32),
        vector(2, 1, 3),
        vector(3, 1, 4),
        matrix(4, 2, 3),
        matrix(5, 3, 3),
        matrix(6, 2, 4),
        matrix(7, 3, 2),
    ]);
    let column = || array(scalar(ScalarKind::Float32), 4);
    assert_eq!(resolve(&module, 4), Ok(array(column(), 3)));
    assert_eq!(resolve(&module, 5), Ok(array(column(), 3)));
    assert_eq!(resolve(&module, 6), Ok(array(column(), 4)));
    assert_eq!(resolve(&module, 7), Ok(array(column(), 2)));
}

#[test]
fn matrices_of_other_row_counts_fail() {
    for rows in [0, 1, 2, 5, 8, u32::MAX] {
        let module = module(vec![floating(1, 32), vector(2, 1, rows), matrix(3, 2, 3)]);
        assert_eq!(
            resolve(&module, 3),
            Err(GenerationError::UnsupportedType(InstructionKind::TypeMatrix))
        );
    }
}

#[test]
fn a_matrix_keeps_the_kind_of_its_components() {
    let module = module(vec![floating(1, 16), integer(2, 32), vector(3, 1, 3), vector(4, 2, 4), matrix(5, 3, 2), matrix(6, 4, 2)]);
    assert_eq!(resolve(&module, 5), Ok(array(array(scalar(ScalarKind::Float16), 4), 2)));
    assert_eq!(resolve(&module, 6), Ok(array(array(scalar(ScalarKind::UInt32), 4), 2)));
}

#[test]
fn a_matrix_needs_vectors_for_columns() {
    let module = module(vec![
        floating(1, 32),
        matrix(2, 1, 3),
        matrix(3, 8, 3),
        Instruction::TypeStruct { result_id: 4, member_types: vec![] },
        matrix(5, 4, 3),
    ]);
    assert_eq!(
        resolve(&module, 2),
        Err(GenerationError::UnsupportedType(InstructionKind::TypeMatrix))
    );
    assert_eq!(resolve(&module, 3), Err(GenerationError::MalformedBinary));
    assert_eq!(
        resolve(&module, 5),
        Err(GenerationError::UnsupportedType(InstructionKind::TypeMatrix))
    );
}

#[test]
fn the_row_count_is_judged_before_the_component_type() {
    let module = module(vec![floating(1, 64), vector(2, 1, 2), vector(3, 1, 3), matrix(4, 2, 3), matrix(5, 3, 3)]);
    assert_eq!(
        resolve(&module, 4),
        Err(GenerationError::UnsupportedType(InstructionKind::TypeMatrix))
    );
    assert_eq!(
        resolve(&module, 5),
        Err(GenerationError::UnsupportedType(InstructionKind::TypeFloat))
    );
}

#[test]
fn a_three_by_three_matrix_holds_twelve_scalars() {
    let module = module(vec![floating(1, 32), vector(2, 1, 3), matrix(3, 2, 3)]);
    let layout = resolve(&module, 3).unwrap();
    assert_eq!(slots(&layout), 12);
    assert_eq!(layout, array(array(scalar(ScalarKind::Float32), 4), 3));
}

#[test]
fn an_aggregate_resolves_to_a_reference_by_name() {
    let module = module(vec![
        Instruction::Name { target: 1, name: "Light".to_string() },
        Instruction::Name { target: 1, name: "Other".to_string() },
        Instruction::TypeStruct { result_id: 1, member_types: vec![] },
    ]);
    assert_eq!(
        resolve(&module, 1),
        Ok(TypeDescriptor::NamedReference { name: "Light".to_string() })
    );
}

#[test]
fn an_aggregate_without_a_name_does_not_resolve() {
    let module = module(vec![
        Instruction::Name { target: 2, name: "Light".to_string() },
        Instruction::MemberName { target: 1, member: 0, name: "x".to_string() },
        Instruction::TypeStruct { result_id: 1, member_types: vec![] },
    ]);
    assert_eq!(resolve(&module, 1), Err(GenerationError::MissingDebugName));
}

#[test]
fn other_instructions_have_no_layout() {
    let module = module(vec![Instruction::Other { assigns: Some(1) }]);
    assert_eq!(
        resolve(&module, 1),
        Err(GenerationError::UnsupportedType(InstructionKind::Other))
    );
}

#[test]
fn an_id_that_nothing_assigns_is_malformed() {
    let module = module(vec![floating(1, 32), Instruction::Other { assigns: None }]);
    assert_eq!(resolve(&module, 2), Err(GenerationError::MalformedBinary));
    assert_eq!(resolve(&Module::new(vec![]).unwrap(), 0), Err(GenerationError::MalformedBinary));
}

#[test]
fn rows_are_normalized_to_four() {
    assert_eq!(normalize_rows(3), Some(4));
    assert_eq!(normalize_rows(4), Some(4));
    assert_eq!(normalize_rows(normalize_rows(3).unwrap()), Some(4));
    for rows in [0, 1, 2, 5, 6, 16, u32::MAX] {
        assert_eq!(normalize_rows(rows), None);
    }
}
