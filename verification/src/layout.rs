//! From a type of the module to its layout on the host.

use vstd::prelude::*;
use vstd::set_lib::{lemma_int_range, lemma_len_subset, set_int_range};
use crate::error::{GenerationError, InstructionKind};
use crate::graph::{
    first_answer, instruction_of, lemma_first_answer, name_of, Instruction, InstructionModel,
    Module, Query,
};

verus! {

/// The scalar kinds that have a host layout.
#[derive(Clone, Copy, Debug, PartialEq, Eq, Structural)]
pub enum ScalarKind {
    Float16,
    Float32,
    UInt32,
}

/// The layout-level type of a value: what the host has to declare for it.
#[derive(Debug, PartialEq, Eq)]
pub enum TypeDescriptor {
    Scalar { kind: ScalarKind },
    FixedArray { element: Box<TypeDescriptor>, length: u32 },
    NamedReference { name: String },
}

/// The mathematical value of a [`TypeDescriptor`].
pub enum TypeModel {
    Scalar { kind: ScalarKind },
    FixedArray { element: Box<TypeModel>, length: u32 },
    NamedReference { name: Seq<char> },
}

impl View for TypeDescriptor {
    type V = TypeModel;

    open spec fn view(&self) -> TypeModel
        decreases self,
    {
        match self {
            TypeDescriptor::Scalar { kind } => TypeModel::Scalar { kind: *kind },
            TypeDescriptor::FixedArray { element, length } => TypeModel::FixedArray {
                element: Box::new((**element).view()),
                length: *length,
            },
            TypeDescriptor::NamedReference { name } => TypeModel::NamedReference { name: name@ },
        }
    }
}

/// The value of what a resolution returned.
pub open spec fn outcome_of(resolved: Result<TypeDescriptor, GenerationError>) -> Result<
    TypeModel,
    GenerationError,
> {
    match resolved {
        Ok(descriptor) => Ok(descriptor@),
        Err(error) => Err(error),
    }
}

/// The layout of a float of `width` bits.
pub open spec fn float_layout(width: u32) -> Result<TypeModel, GenerationError> {
    if width == 16 {
        Ok(TypeModel::Scalar { kind: ScalarKind::Float16 })
    } else if width == 32 {
        Ok(TypeModel::Scalar { kind: ScalarKind::Float32 })
    } else {
        Err(GenerationError::UnsupportedType(InstructionKind::TypeFloat))
    }
}

/// The layout of an integer of `width` bits. Signed integers are laid out as unsigned.
pub open spec fn int_layout(width: u32) -> Result<TypeModel, GenerationError> {
    if width == 32 {
        Ok(TypeModel::Scalar { kind: ScalarKind::UInt32 })
    } else {
        Err(GenerationError::UnsupportedType(InstructionKind::TypeInt))
    }
}

/// The rows that a matrix column is stored with: columns of three rows are padded to
/// four, as uniform buffers lay them out. No other row count has a layout.
pub open spec fn normalized_rows(rows: u32) -> Option<u32> {
    if rows == 3 || rows == 4 {
        Some(4u32)
    } else {
        None
    }
}

/// `length` elements of what `element` resolved to.
pub open spec fn array_of(element: Result<TypeModel, GenerationError>, length: u32) -> Result<
    TypeModel,
    GenerationError,
> {
    match element {
        Ok(layout) => Ok(TypeModel::FixedArray { element: Box::new(layout), length }),
        Err(error) => Err(error),
    }
}

/// The layout of the type `id`, following component types through at most `depth`
/// vectors and matrices.
pub open spec fn resolve_within(graph: Seq<InstructionModel>, id: u32, depth: nat) -> Result<
    TypeModel,
    GenerationError,
>
    decreases depth,
{
    match instruction_of(graph, id) {
        None => Err(GenerationError::MalformedBinary),
        Some(instruction) => match instruction {
            InstructionModel::TypeFloat { width, .. } => float_layout(width),
            InstructionModel::TypeInt { width, .. } => int_layout(width),
            InstructionModel::TypeVector { component_type, component_count, .. } => if depth == 0 {
                Err(GenerationError::MalformedBinary)
            } else {
                array_of(resolve_within(graph, component_type, (depth - 1) as nat), component_count)
            },
            InstructionModel::TypeMatrix { column_type, column_count, .. } => match instruction_of(
                graph,
                column_type,
            ) {
                None => Err(GenerationError::MalformedBinary),
                Some(InstructionModel::TypeVector { component_type, component_count, .. }) => {
                    match normalized_rows(component_count) {
                        None => Err(GenerationError::UnsupportedType(InstructionKind::TypeMatrix)),
                        Some(rows) => if depth == 0 {
                            Err(GenerationError::MalformedBinary)
                        } else {
                            array_of(
                                array_of(
                                    resolve_within(graph, component_type, (depth - 1) as nat),
                                    rows,
                                ),
                                column_count,
                            )
                        },
                    }
                },
                Some(_) => Err(GenerationError::UnsupportedType(InstructionKind::TypeMatrix)),
            },
            InstructionModel::TypeStruct { .. } => match name_of(graph, id) {
                Some(name) => Ok(TypeModel::NamedReference { name }),
                None => Err(GenerationError::MissingDebugName),
            },
            _ => Err(GenerationError::UnsupportedType(instruction.kind())),
        },
    }
}

/// The layout of the type `id`. The types of a module that nest deeper than it has
/// instructions nest without end.
pub open spec fn resolved(graph: Seq<InstructionModel>, id: u32) -> Result<
    TypeModel,
    GenerationError,
> {
    resolve_within(graph, id, graph.len())
}

/// The type that the layout of `id` is built from: the component type of a vector,
/// and of the column vector of a matrix whose columns have three or four rows.
pub open spec fn element_of(graph: Seq<InstructionModel>, id: u32) -> Option<u32> {
    match instruction_of(graph, id) {
        Some(InstructionModel::TypeVector { component_type, .. }) => Some(component_type),
        Some(InstructionModel::TypeMatrix { column_type, .. }) => match instruction_of(
            graph,
            column_type,
        ) {
            Some(InstructionModel::TypeVector { component_type, component_count, .. }) => {
                if normalized_rows(component_count) is Some {
                    Some(component_type)
                } else {
                    None
                }
            },
            _ => None,
        },
        _ => None,
    }
}

/// The layout of `id` nests deeper than `depth` vectors and matrices.
pub open spec fn exceeds(graph: Seq<InstructionModel>, id: u32, depth: nat) -> bool
    decreases depth,
{
    match element_of(graph, id) {
        None => false,
        Some(element) => depth == 0 || exceeds(graph, element, (depth - 1) as nat),
    }
}

/// The scalars that a layout holds directly, not counting what it refers to by name.
pub open spec fn scalar_slots(layout: TypeModel) -> int
    decreases layout,
{
    match layout {
        TypeModel::Scalar { .. } => 1,
        TypeModel::FixedArray { element, length } => length * scalar_slots(*element),
        TypeModel::NamedReference { .. } => 0,
    }
}

/// A layout that nests no deeper than `depth` is the same at every greater depth.
pub proof fn lemma_depth_is_enough(graph: Seq<InstructionModel>, id: u32, depth: nat, more: nat)
    requires
        !exceeds(graph, id, depth),
        depth <= more,
    ensures
        !exceeds(graph, id, more),
        resolve_within(graph, id, more) == resolve_within(graph, id, depth),
    decreases depth,
{
    match element_of(graph, id) {
        Some(element) => {
            lemma_depth_is_enough(graph, element, (depth - 1) as nat, (more - 1) as nat);
        },
        None => {},
    }
}

/// A layout that nests deeper than `depth` is not resolved at that depth.
pub proof fn lemma_too_deep_is_malformed(graph: Seq<InstructionModel>, id: u32, depth: nat)
    requires
        exceeds(graph, id, depth),
    ensures
        resolve_within(graph, id, depth) == Err::<TypeModel, GenerationError>(
            GenerationError::MalformedBinary,
        ),
    decreases depth,
{
    if depth > 0 {
        lemma_too_deep_is_malformed(graph, element_of(graph, id)->0, (depth - 1) as nat);
    }
}

/// The positions of the vectors and matrices that the layout of `id` passes through,
/// where it nests exactly `depth` of them: they are `depth` different instructions.
proof fn lemma_nesting_positions(graph: Seq<InstructionModel>, id: u32, depth: nat) -> (positions:
    Set<int>)
    requires
        !exceeds(graph, id, depth),
        depth > 0 ==> exceeds(graph, id, (depth - 1) as nat),
    ensures
        positions.finite(),
        positions.len() == depth,
        forall|at: int| #[trigger]
            positions.contains(at) ==> 0 <= at < graph.len() && graph[at].result_id() is Some
                && !exceeds(graph, graph[at].result_id()->0, depth),
    decreases depth,
{
    if depth == 0 {
        Set::empty()
    } else {
        let element = element_of(graph, id)->0;
        let inner = lemma_nesting_positions(graph, element, (depth - 1) as nat);
        let at = first_answer(graph, Query::Definition(id), 0)->0;
        lemma_first_answer(graph, Query::Definition(id), 0);
        assert forall|other: int| #[trigger] inner.contains(other) implies !exceeds(
            graph,
            graph[other].result_id()->0,
            depth,
        ) by {
            lemma_depth_is_enough(
                graph,
                graph[other].result_id()->0,
                (depth - 1) as nat,
                depth,
            );
        }
        inner.insert(at)
    }
}

/// The least depth within which the layout of `id` nests.
proof fn lemma_least_depth(graph: Seq<InstructionModel>, id: u32, depth: nat) -> (least: nat)
    requires
        !exceeds(graph, id, depth),
    ensures
        least <= depth,
        !exceeds(graph, id, least),
        least > 0 ==> exceeds(graph, id, (least - 1) as nat),
    decreases depth,
{
    if depth > 0 && !exceeds(graph, id, (depth - 1) as nat) {
        lemma_least_depth(graph, id, (depth - 1) as nat)
    } else {
        depth
    }
}

/// A layout nests through different instructions, so none that nests at all nests
/// deeper than the module has instructions: `resolved` cuts nothing short.
pub proof fn lemma_resolved_at_any_depth(graph: Seq<InstructionModel>, id: u32, depth: nat)
    requires
        graph.len() <= depth,
    ensures
        resolve_within(graph, id, depth) == resolved(graph, id),
{
    if exceeds(graph, id, depth) {
        if !exceeds(graph, id, graph.len()) {
            lemma_depth_is_enough(graph, id, graph.len(), depth);
        }
        lemma_too_deep_is_malformed(graph, id, depth);
        lemma_too_deep_is_malformed(graph, id, graph.len());
    } else {
        let least = lemma_least_depth(graph, id, depth);
        let positions = lemma_nesting_positions(graph, id, least);
        lemma_int_range(0, graph.len() as int);
        lemma_len_subset(positions, set_int_range(0, graph.len() as int));
        lemma_depth_is_enough(graph, id, least, graph.len());
        lemma_depth_is_enough(graph, id, least, depth);
    }
}

/// A float of 16 bits resolves to `Float16`, one of 32 bits to `Float32` and an
/// integer of 32 bits to `UInt32`. A float or an integer of any other width fails
/// with `UnsupportedType`.
pub proof fn lemma_scalar_layouts(graph: Seq<InstructionModel>, id: u32)
    ensures
        instruction_of(graph, id) matches Some(InstructionModel::TypeFloat { width, .. })
            ==> resolved(graph, id) == float_layout(width) && (width != 16 && width != 32
            ==> resolved(graph, id) == Err::<TypeModel, GenerationError>(
            GenerationError::UnsupportedType(InstructionKind::TypeFloat),
        )),
        instruction_of(graph, id) matches Some(InstructionModel::TypeInt { width, .. })
            ==> resolved(graph, id) == int_layout(width) && (width != 32 ==> resolved(graph, id)
            == Err::<TypeModel, GenerationError>(
            GenerationError::UnsupportedType(InstructionKind::TypeInt),
        )),
        float_layout(16) == Ok::<TypeModel, GenerationError>(
            TypeModel::Scalar { kind: ScalarKind::Float16 },
        ),
        float_layout(32) == Ok::<TypeModel, GenerationError>(
            TypeModel::Scalar { kind: ScalarKind::Float32 },
        ),
        int_layout(32) == Ok::<TypeModel, GenerationError>(
            TypeModel::Scalar { kind: ScalarKind::UInt32 },
        ),
{
}

/// A vector resolves to an array of as many elements as it has components, each of
/// the layout that its component type resolves to; it fails as its component type
/// fails.
pub proof fn lemma_vector_layout(graph: Seq<InstructionModel>, id: u32)
    requires
        instruction_of(graph, id) is Some,
        instruction_of(graph, id)->0 is TypeVector,
    ensures
        resolved(graph, id) == array_of(
            resolved(graph, instruction_of(graph, id)->0->TypeVector_component_type),
            instruction_of(graph, id)->0->TypeVector_component_count,
        ),
{
    lemma_first_answer(graph, Query::Definition(id), 0);
    lemma_resolved_at_any_depth(graph, id, graph.len() + 1);
}

/// Three rows and four rows are both stored as four; storing is idempotent; no other
/// row count is stored at all.
pub proof fn lemma_rows_normalized(rows: u32)
    ensures
        normalized_rows(3) == Some(4u32),
        normalized_rows(4) == Some(4u32),
        normalized_rows(rows) is Some <==> rows == 3 || rows == 4,
        normalized_rows(rows) matches Some(stored) ==> normalized_rows(stored) == Some(stored),
{
}

/// A matrix whose columns are vectors of three or of four rows resolves to an array
/// of its columns, each an array of four of the layout of the component type. With
/// columns of any other row count it fails with `UnsupportedType`.
pub proof fn lemma_matrix_layout(graph: Seq<InstructionModel>, id: u32)
    requires
        instruction_of(graph, id) is Some,
        instruction_of(graph, id)->0 is TypeMatrix,
        instruction_of(graph, instruction_of(graph, id)->0->TypeMatrix_column_type) is Some,
        instruction_of(graph, instruction_of(graph, id)->0->TypeMatrix_column_type)->0
            is TypeVector,
    ensures
        ({
            let matrix = instruction_of(graph, id)->0;
            let column = instruction_of(graph, matrix->TypeMatrix_column_type)->0;
            let rows = column->TypeVector_component_count;
            if rows == 3 || rows == 4 {
                resolved(graph, id) == array_of(
                    array_of(resolved(graph, column->TypeVector_component_type), 4),
                    matrix->TypeMatrix_column_count,
                )
            } else {
                resolved(graph, id) == Err::<TypeModel, GenerationError>(
                    GenerationError::UnsupportedType(InstructionKind::TypeMatrix),
                )
            }
        }),
{
    lemma_first_answer(graph, Query::Definition(id), 0);
    lemma_resolved_at_any_depth(graph, id, graph.len() + 1);
}

/// A matrix of scalars holds four scalars for each of its columns, whether its
/// columns have three rows or four.
pub proof fn lemma_matrix_slots(graph: Seq<InstructionModel>, id: u32)
    requires
        resolved(graph, id) is Ok,
        instruction_of(graph, id) is Some,
        instruction_of(graph, id)->0 is TypeMatrix,
        instruction_of(graph, instruction_of(graph, id)->0->TypeMatrix_column_type) is Some,
        instruction_of(graph, instruction_of(graph, id)->0->TypeMatrix_column_type)->0
            is TypeVector,
        resolved(
            graph,
            instruction_of(
                graph,
                instruction_of(graph, id)->0->TypeMatrix_column_type,
            )->0->TypeVector_component_type,
        ) matches Ok(component) && component is Scalar,
    ensures
        scalar_slots(resolved(graph, id)->Ok_0) == 4 * instruction_of(
            graph,
            id,
        )->0->TypeMatrix_column_count,
{
    lemma_matrix_layout(graph, id);
    let matrix = instruction_of(graph, id)->0;
    let column = instruction_of(graph, matrix->TypeMatrix_column_type)->0;
    let component = resolved(graph, column->TypeVector_component_type)->Ok_0;
    let stored = TypeModel::FixedArray { element: Box::new(component), length: 4 };
    assert(scalar_slots(stored) == 4 * scalar_slots(component));
    assert(scalar_slots(resolved(graph, id)->Ok_0) == matrix->TypeMatrix_column_count
        * scalar_slots(stored));
}

/// The rows that a matrix column of `rows` rows is stored with.
pub fn normalize_rows(rows: u32) -> (padded: Option<u32>)
    ensures
        padded == normalized_rows(rows),
{
    if rows == 3 || rows == 4 {
        Some(4)
    } else {
        None
    }
}

fn array(element: Result<TypeDescriptor, GenerationError>, length: u32) -> (made: Result<
    TypeDescriptor,
    GenerationError,
>)
    ensures
        outcome_of(made) == array_of(outcome_of(element), length),
{
    match element {
        Ok(layout) => Ok(TypeDescriptor::FixedArray { element: Box::new(layout), length }),
        Err(error) => Err(error),
    }
}

fn resolve_to_depth(module: &Module, id: u32, depth: usize) -> (found: Result<
    TypeDescriptor,
    GenerationError,
>)
    ensures
        outcome_of(found) == resolve_within(module@, id, depth as nat),
    decreases depth,
{
    let instruction = match module.instruction_of(id) {
        Some(instruction) => instruction,
        None => return Err(GenerationError::MalformedBinary),
    };
    match instruction {
        Instruction::TypeFloat { width, .. } => if *width == 16 {
            Ok(TypeDescriptor::Scalar { kind: ScalarKind::Float16 })
        } else if *width == 32 {
            Ok(TypeDescriptor::Scalar { kind: ScalarKind::Float32 })
        } else {
            Err(GenerationError::UnsupportedType(InstructionKind::TypeFloat))
        },
        Instruction::TypeInt { width, .. } => if *width == 32 {
            Ok(TypeDescriptor::Scalar { kind: ScalarKind::UInt32 })
        } else {
            Err(GenerationError::UnsupportedType(InstructionKind::TypeInt))
        },
        Instruction::TypeVector { component_type, component_count, .. } => if depth == 0 {
            Err(GenerationError::MalformedBinary)
        } else {
            array(resolve_to_depth(module, *component_type, depth - 1), *component_count)
        },
        Instruction::TypeMatrix { column_type, column_count, .. } => {
            match module.instruction_of(*column_type) {
                None => Err(GenerationError::MalformedBinary),
                Some(Instruction::TypeVector { component_type, component_count, .. }) => {
                    match normalize_rows(*component_count) {
                        None => Err(GenerationError::UnsupportedType(InstructionKind::TypeMatrix)),
                        Some(rows) => if depth == 0 {
                            Err(GenerationError::MalformedBinary)
                        } else {
                            array(
                                array(resolve_to_depth(module, *component_type, depth - 1), rows),
                                *column_count,
                            )
                        },
                    }
                },
                Some(_) => Err(GenerationError::UnsupportedType(InstructionKind::TypeMatrix)),
            }
        },
        Instruction::TypeStruct { .. } => match module.name_of(id) {
            Some(name) => Ok(TypeDescriptor::NamedReference { name: name.clone() }),
            None => Err(GenerationError::MissingDebugName),
        },
        other => Err(GenerationError::UnsupportedType(other.kind())),
    }
}

/// Resolves the type `id` to its layout.
///
/// A float of 16 or 32 bits and an integer of 32 bits are scalars; a vector is an
/// array of its resolved component type; a matrix is an array of columns, each an
/// array of four of the resolved component type of its column vector, which must have
/// three or four rows; an aggregate is a reference by its debug name.
pub fn resolve(module: &Module, id: u32) -> (found: Result<TypeDescriptor, GenerationError>)
    ensures
        outcome_of(found) == resolved(module@, id),
{
    resolve_to_depth(module, id, module.len())
}

} // verus!
