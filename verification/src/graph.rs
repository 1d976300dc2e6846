//! The instruction graph of a module and its debug names.

use vstd::prelude::*;
use crate::error::{GenerationError, InstructionKind};

verus! {

/// One decoded instruction of a module, reduced to what layout derivation reads.
#[derive(Debug, PartialEq, Eq)]
pub enum Instruction {
    TypeFloat { result_id: u32, width: u32 },
    TypeInt { result_id: u32, width: u32 },
    TypeVector { result_id: u32, component_type: u32, component_count: u32 },
    TypeMatrix { result_id: u32, column_type: u32, column_count: u32 },
    TypeStruct { result_id: u32, member_types: Vec<u32> },
    Name { target: u32, name: String },
    MemberName { target: u32, member: u32, name: String },
    /// Any other instruction, with the id that it assigns, if it assigns one.
    Other { assigns: Option<u32> },
}

/// The mathematical value of an [`Instruction`].
pub enum InstructionModel {
    TypeFloat { result_id: u32, width: u32 },
    TypeInt { result_id: u32, width: u32 },
    TypeVector { result_id: u32, component_type: u32, component_count: u32 },
    TypeMatrix { result_id: u32, column_type: u32, column_count: u32 },
    TypeStruct { result_id: u32, member_types: Seq<u32> },
    Name { target: u32, name: Seq<char> },
    MemberName { target: u32, member: u32, name: Seq<char> },
    Other { assigns: Option<u32> },
}

/// A question that at most one kind of instruction answers.
#[derive(Clone, Copy, Debug, PartialEq, Eq, Structural)]
pub enum Query {
    /// Which instruction assigns this id?
    Definition(u32),
    /// Which instruction names this id?
    Name(u32),
    /// Which instruction names this member (aggregate id, member index)?
    MemberName(u32, u32),
}

impl InstructionModel {
    /// The id that the instruction assigns, if any.
    pub open spec fn result_id(self) -> Option<u32> {
        match self {
            InstructionModel::TypeFloat { result_id, .. } => Some(result_id),
            InstructionModel::TypeInt { result_id, .. } => Some(result_id),
            InstructionModel::TypeVector { result_id, .. } => Some(result_id),
            InstructionModel::TypeMatrix { result_id, .. } => Some(result_id),
            InstructionModel::TypeStruct { result_id, .. } => Some(result_id),
            InstructionModel::Name { .. } => None,
            InstructionModel::MemberName { .. } => None,
            InstructionModel::Other { assigns } => assigns,
        }
    }

    /// What the instruction is.
    pub open spec fn kind(self) -> InstructionKind {
        match self {
            InstructionModel::TypeFloat { .. } => InstructionKind::TypeFloat,
            InstructionModel::TypeInt { .. } => InstructionKind::TypeInt,
            InstructionModel::TypeVector { .. } => InstructionKind::TypeVector,
            InstructionModel::TypeMatrix { .. } => InstructionKind::TypeMatrix,
            InstructionModel::TypeStruct { .. } => InstructionKind::TypeStruct,
            InstructionModel::Name { .. } => InstructionKind::Name,
            InstructionModel::MemberName { .. } => InstructionKind::MemberName,
            InstructionModel::Other { .. } => InstructionKind::Other,
        }
    }

    /// Whether the instruction answers `query`.
    pub open spec fn answers(self, query: Query) -> bool {
        match query {
            Query::Definition(id) => self.result_id() == Some(id),
            Query::Name(id) => self matches InstructionModel::Name { target, .. } && target == id,
            Query::MemberName(id, index) => self matches InstructionModel::MemberName {
                target,
                member,
                ..
            } && target == id && member == index,
        }
    }
}

impl View for Instruction {
    type V = InstructionModel;

    open spec fn view(&self) -> InstructionModel {
        match *self {
            Instruction::TypeFloat { result_id, width } => InstructionModel::TypeFloat {
                result_id,
                width,
            },
            Instruction::TypeInt { result_id, width } => InstructionModel::TypeInt {
                result_id,
                width,
            },
            Instruction::TypeVector {
                result_id,
                component_type,
                component_count,
            } => InstructionModel::TypeVector { result_id, component_type, component_count },
            Instruction::TypeMatrix {
                result_id,
                column_type,
                column_count,
            } => InstructionModel::TypeMatrix { result_id, column_type, column_count },
            Instruction::TypeStruct { result_id, member_types } => InstructionModel::TypeStruct {
                result_id,
                member_types: member_types@,
            },
            Instruction::Name { target, name } => InstructionModel::Name { target, name: name@ },
            Instruction::MemberName { target, member, name } => InstructionModel::MemberName {
                target,
                member,
                name: name@,
            },
            Instruction::Other { assigns } => InstructionModel::Other { assigns },
        }
    }
}

impl Instruction {
    /// The id that the instruction assigns, if any.
    pub fn result_id(&self) -> (id: Option<u32>)
        ensures
            id == self@.result_id(),
    {
        match self {
            Instruction::TypeFloat { result_id, .. } => Some(*result_id),
            Instruction::TypeInt { result_id, .. } => Some(*result_id),
            Instruction::TypeVector { result_id, .. } => Some(*result_id),
            Instruction::TypeMatrix { result_id, .. } => Some(*result_id),
            Instruction::TypeStruct { result_id, .. } => Some(*result_id),
            Instruction::Name { .. } => None,
            Instruction::MemberName { .. } => None,
            Instruction::Other { assigns } => *assigns,
        }
    }

    /// What the instruction is.
    pub fn kind(&self) -> (kind: InstructionKind)
        ensures
            kind == self@.kind(),
    {
        match self {
            Instruction::TypeFloat { .. } => InstructionKind::TypeFloat,
            Instruction::TypeInt { .. } => InstructionKind::TypeInt,
            Instruction::TypeVector { .. } => InstructionKind::TypeVector,
            Instruction::TypeMatrix { .. } => InstructionKind::TypeMatrix,
            Instruction::TypeStruct { .. } => InstructionKind::TypeStruct,
            Instruction::Name { .. } => InstructionKind::Name,
            Instruction::MemberName { .. } => InstructionKind::MemberName,
            Instruction::Other { .. } => InstructionKind::Other,
        }
    }

    /// Whether the instruction answers `query`.
    pub fn answers(&self, query: Query) -> (yes: bool)
        ensures
            yes == self@.answers(query),
    {
        match query {
            Query::Definition(id) => match self.result_id() {
                Some(own) => own == id,
                None => false,
            },
            Query::Name(id) => match self {
                Instruction::Name { target, .. } => *target == id,
                _ => false,
            },
            Query::MemberName(id, index) => match self {
                Instruction::MemberName { target, member, .. } => *target == id && *member == index,
                _ => false,
            },
        }
    }
}

/// The values of a sequence of instructions, in order.
pub open spec fn models_of(instructions: Seq<Instruction>) -> Seq<InstructionModel> {
    Seq::new(instructions.len(), |k: int| instructions[k]@)
}

/// No id is assigned by two instructions.
pub open spec fn unique_ids(graph: Seq<InstructionModel>) -> bool {
    forall|i: int, j: int|
        0 <= i < j < graph.len() && graph[i].result_id() is Some ==> graph[i].result_id()
            != graph[j].result_id()
}

/// The position of the first instruction at or after `from` that answers `query`.
pub open spec fn first_answer(graph: Seq<InstructionModel>, query: Query, from: int) -> Option<int>
    decreases graph.len() - from,
{
    if from < 0 || from >= graph.len() {
        None
    } else if graph[from].answers(query) {
        Some(from)
    } else {
        first_answer(graph, query, from + 1)
    }
}

/// The instruction that assigns `id`.
pub open spec fn instruction_of(graph: Seq<InstructionModel>, id: u32) -> Option<InstructionModel> {
    match first_answer(graph, Query::Definition(id), 0) {
        Some(at) => Some(graph[at]),
        None => None,
    }
}

/// The debug name of `id`: the text of the first name instruction that targets it.
pub open spec fn name_of(graph: Seq<InstructionModel>, id: u32) -> Option<Seq<char>> {
    match first_answer(graph, Query::Name(id), 0) {
        Some(at) => Some(graph[at]->Name_name),
        None => None,
    }
}

/// The debug name of member `index` of the aggregate `id`.
pub open spec fn member_name_of(graph: Seq<InstructionModel>, id: u32, index: u32) -> Option<
    Seq<char>,
> {
    match first_answer(graph, Query::MemberName(id, index), 0) {
        Some(at) => Some(graph[at]->MemberName_name),
        None => None,
    }
}

/// What `first_answer` finds is in range, answers the query, and is the first to do so.
pub proof fn lemma_first_answer(graph: Seq<InstructionModel>, query: Query, from: int)
    requires
        0 <= from,
    ensures
        match first_answer(graph, query, from) {
            Some(at) => from <= at < graph.len() && graph[at].answers(query) && forall|k: int|
                from <= k < at ==> !graph[k].answers(query),
            None => forall|k: int| from <= k < graph.len() ==> !graph[k].answers(query),
        },
    decreases graph.len() - from,
{
    if from < graph.len() && !graph[from].answers(query) {
        lemma_first_answer(graph, query, from + 1);
    }
}

/// The instruction graph of one module: its instructions in declaration order, no id
/// assigned twice. Read-only once built.
#[derive(Debug)]
pub struct Module {
    instructions: Vec<Instruction>,
}

impl View for Module {
    type V = Seq<InstructionModel>;

    closed spec fn view(&self) -> Seq<InstructionModel> {
        models_of(self.instructions@)
    }
}

impl Module {
    #[verifier::type_invariant]
    closed spec fn well_formed(self) -> bool {
        unique_ids(models_of(self.instructions@))
    }

    /// Builds the graph of `instructions`, or fails with `MalformedBinary` if two of
    /// them assign the same id.
    pub fn new(instructions: Vec<Instruction>) -> (built: Result<Module, GenerationError>)
        ensures
            match built {
                Ok(module) => module@ == models_of(instructions@) && unique_ids(module@),
                Err(error) => error == GenerationError::MalformedBinary && !unique_ids(
                    models_of(instructions@),
                ),
            },
    {
        let ghost graph = models_of(instructions@);
        let mut j: usize = 0;
        while j < instructions.len()
            invariant
                j <= instructions.len(),
                graph == models_of(instructions@),
                forall|a: int, b: int|
                    0 <= a < b < j && graph[a].result_id() is Some ==> graph[a].result_id()
                        != graph[b].result_id(),
            decreases instructions.len() - j,
        {
            let own = instructions[j].result_id();
            let mut i: usize = 0;
            while i < j
                invariant
                    i <= j < instructions.len(),
                    graph == models_of(instructions@),
                    own == graph[j as int].result_id(),
                    forall|a: int|
                        0 <= a < i && graph[a].result_id() is Some ==> graph[a].result_id() != own,
                decreases j - i,
            {
                let other = instructions[i].result_id();
                if other.is_some() && other == own {
                    assert(graph[i as int].result_id() is Some && graph[i as int].result_id()
                        == graph[j as int].result_id());
                    return Err(GenerationError::MalformedBinary);
                }
                i += 1;
            }
            j += 1;
        }
        Ok(Module { instructions })
    }

    /// The number of instructions.
    pub fn len(&self) -> (n: usize)
        ensures
            n == self@.len(),
    {
        self.instructions.len()
    }

    /// The instruction at position `at`.
    pub fn get(&self, at: usize) -> (instruction: &Instruction)
        requires
            at < self@.len(),
        ensures
            instruction@ == self@[at as int],
    {
        &self.instructions[at]
    }

    /// The position of the first instruction that answers `query`.
    pub fn find(&self, query: Query) -> (found: Option<usize>)
        ensures
            unique_ids(self@),
            match found {
                Some(at) => first_answer(self@, query, 0) == Some(at as int),
                None => first_answer(self@, query, 0) is None,
            },
    {
        proof {
            use_type_invariant(self);
        }
        let mut at: usize = 0;
        while at < self.instructions.len()
            invariant
                at <= self.instructions.len(),
                unique_ids(self@),
                first_answer(self@, query, 0) == first_answer(self@, query, at as int),
            decreases self.instructions.len() - at,
        {
            if self.instructions[at].answers(query) {
                return Some(at);
            }
            at += 1;
        }
        None
    }

    /// The instruction that assigns `id`.
    pub fn instruction_of(&self, id: u32) -> (found: Option<&Instruction>)
        ensures
            match found {
                Some(instruction) => instruction_of(self@, id) == Some(instruction@),
                None => instruction_of(self@, id) is None,
            },
    {
        match self.find(Query::Definition(id)) {
            Some(at) => {
                proof {
                    lemma_first_answer(self@, Query::Definition(id), 0);
                }
                Some(&self.instructions[at])
            },
            None => None,
        }
    }

    /// The debug name of `id`: the text of the first name instruction that targets it.
    pub fn name_of(&self, id: u32) -> (found: Option<&String>)
        ensures
            match found {
                Some(name) => name_of(self@, id) == Some(name@),
                None => name_of(self@, id) is None,
            },
    {
        match self.find(Query::Name(id)) {
            Some(at) => {
                proof {
                    lemma_first_answer(self@, Query::Name(id), 0);
                }
                match &self.instructions[at] {
                    Instruction::Name { name, .. } => Some(name),
                    _ => None,
                }
            },
            None => None,
        }
    }

    /// The debug name of member `index` of the aggregate `id`.
    pub fn member_name_of(&self, id: u32, index: u32) -> (found: Option<&String>)
        ensures
            match found {
                Some(name) => member_name_of(self@, id, index) == Some(name@),
                None => member_name_of(self@, id, index) is None,
            },
    {
        match self.find(Query::MemberName(id, index)) {
            Some(at) => {
                proof {
                    lemma_first_answer(self@, Query::MemberName(id, index), 0);
                }
                match &self.instructions[at] {
                    Instruction::MemberName { name, .. } => Some(name),
                    _ => None,
                }
            },
            None => None,
        }
    }
}

} // verus!
