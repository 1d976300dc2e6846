//! From the aggregates of a module to their declarations.

use vstd::prelude::*;
use vstd::string::*;
use crate::error::GenerationError;
use crate::graph::{member_name_of, name_of, Instruction, InstructionModel, Module};
use crate::layout::{resolve, resolved, TypeDescriptor, TypeModel};
use crate::vertex::{derive_format, derived_format};

verus! {

/// One member of an aggregate: its name, its layout and, in the vertex-input
/// aggregate, the wire format of the attribute.
#[derive(Debug, PartialEq, Eq)]
pub struct Field {
    pub name: String,
    pub ty: TypeDescriptor,
    pub vertex_format: Option<String>,
}

/// The mathematical value of a [`Field`].
pub struct FieldModel {
    pub name: Seq<char>,
    pub ty: TypeModel,
    pub vertex_format: Option<Seq<char>>,
}

/// The declaration of one aggregate. A synthesized declaration stands for an
/// aggregate that the module does not declare: it has no fields. The synthesized
/// uniform block is stored as one opaque byte and is made by an `empty` constructor;
/// the synthesized vertex input is a vertex-input type without attributes.
#[derive(Debug, PartialEq, Eq)]
pub struct AggregateDeclaration {
    pub name: String,
    pub fields: Vec<Field>,
    pub synthesized: bool,
}

/// The mathematical value of an [`AggregateDeclaration`].
pub struct AggregateModel {
    pub name: Seq<char>,
    pub fields: Seq<FieldModel>,
    pub synthesized: bool,
}

/// Which of the named aggregates are emitted.
#[derive(Debug, PartialEq, Eq)]
pub enum EmissionPolicy {
    /// Every named aggregate.
    General,
    /// Only the aggregate of this name.
    Only(String),
}

impl View for Field {
    type V = FieldModel;

    open spec fn view(&self) -> FieldModel {
        FieldModel {
            name: self.name@,
            ty: self.ty@,
            vertex_format: match self.vertex_format {
                Some(text) => Some(text@),
                None => None,
            },
        }
    }
}

/// The values of a sequence of fields, in order.
pub open spec fn fields_models(fields: Seq<Field>) -> Seq<FieldModel> {
    Seq::new(fields.len(), |k: int| fields[k]@)
}

impl View for AggregateDeclaration {
    type V = AggregateModel;

    open spec fn view(&self) -> AggregateModel {
        AggregateModel {
            name: self.name@,
            fields: fields_models(self.fields@),
            synthesized: self.synthesized,
        }
    }
}

/// The values of a sequence of declarations, in order.
pub open spec fn declarations_models(declarations: Seq<AggregateDeclaration>) -> Seq<
    AggregateModel,
> {
    Seq::new(declarations.len(), |k: int| declarations[k]@)
}

/// The name of the uniform-block aggregate.
pub open spec fn uniforms_name() -> Seq<char> {
    "Uniforms"@
}

/// The name of the vertex-input aggregate.
pub open spec fn vertex_name() -> Seq<char> {
    "Vertex"@
}

/// Whether `policy` emits the aggregate called `name`.
pub open spec fn selects(policy: EmissionPolicy, name: Seq<char>) -> bool {
    match policy {
        EmissionPolicy::General => true,
        EmissionPolicy::Only(wanted) => name == wanted@,
    }
}

/// The field for member `index`, of type `member_type`, of the aggregate `aggregate`.
/// The member must have a name and its type a layout; in the vertex-input aggregate
/// (`vertex`) it must have a wire format too.
pub open spec fn field_of(
    graph: Seq<InstructionModel>,
    aggregate: u32,
    index: nat,
    member_type: u32,
    vertex: bool,
) -> Result<FieldModel, GenerationError> {
    if index > u32::MAX {
        Err(GenerationError::MissingDebugName)
    } else {
        match member_name_of(graph, aggregate, index as u32) {
            None => Err(GenerationError::MissingDebugName),
            Some(name) => match resolved(graph, member_type) {
                Err(error) => Err(error),
                Ok(ty) => if vertex {
                    match derived_format(graph, member_type) {
                        Err(error) => Err(error),
                        Ok(text) => Ok(FieldModel { name, ty, vertex_format: Some(text) }),
                    }
                } else {
                    Ok(FieldModel { name, ty, vertex_format: None })
                },
            },
        }
    }
}

/// The fields of the first `count` members, or the error of the first member that
/// has one.
pub open spec fn fields_of(
    graph: Seq<InstructionModel>,
    aggregate: u32,
    member_types: Seq<u32>,
    vertex: bool,
    count: nat,
) -> Result<Seq<FieldModel>, GenerationError>
    decreases count,
{
    if count == 0 {
        Ok(Seq::empty())
    } else {
        match fields_of(graph, aggregate, member_types, vertex, (count - 1) as nat) {
            Err(error) => Err(error),
            Ok(fields) => match field_of(
                graph,
                aggregate,
                (count - 1) as nat,
                member_types[count - 1],
                vertex,
            ) {
                Err(error) => Err(error),
                Ok(field) => Ok(fields.push(field)),
            },
        }
    }
}

/// What the instruction at position `at` contributes: the declaration of a named
/// aggregate that `policy` selects, and nothing for any other instruction.
pub open spec fn aggregate_at(graph: Seq<InstructionModel>, policy: EmissionPolicy, at: int) -> Result<
    Option<AggregateModel>,
    GenerationError,
> {
    match graph[at] {
        InstructionModel::TypeStruct { result_id, member_types } => match name_of(
            graph,
            result_id,
        ) {
            None => Ok(None),
            Some(name) => if selects(policy, name) {
                match fields_of(
                    graph,
                    result_id,
                    member_types,
                    name == vertex_name(),
                    member_types.len(),
                ) {
                    Err(error) => Err(error),
                    Ok(fields) => Ok(Some(AggregateModel { name, fields, synthesized: false })),
                }
            } else {
                Ok(None)
            },
        },
        _ => Ok(None),
    }
}

/// The declarations of the first `count` instructions, in declaration order, or the
/// error of the first aggregate that has one.
pub open spec fn emitted_within(graph: Seq<InstructionModel>, policy: EmissionPolicy, count: nat) -> Result<
    Seq<AggregateModel>,
    GenerationError,
>
    decreases count,
{
    if count == 0 {
        Ok(Seq::empty())
    } else {
        match emitted_within(graph, policy, (count - 1) as nat) {
            Err(error) => Err(error),
            Ok(declarations) => match aggregate_at(graph, policy, count - 1) {
                Err(error) => Err(error),
                Ok(None) => Ok(declarations),
                Ok(Some(declaration)) => Ok(declarations.push(declaration)),
            },
        }
    }
}

/// The declarations of a module under `policy`.
pub open spec fn emitted(graph: Seq<InstructionModel>, policy: EmissionPolicy) -> Result<
    Seq<AggregateModel>,
    GenerationError,
> {
    emitted_within(graph, policy, graph.len())
}

/// Whether one of `declarations` is called `name`.
pub open spec fn declares(declarations: Seq<AggregateModel>, name: Seq<char>) -> bool {
    exists|k: int| 0 <= k < declarations.len() && #[trigger] declarations[k].name == name
}

/// The declaration that stands for an aggregate called `name` that no module declares.
pub open spec fn placeholder(name: Seq<char>) -> AggregateModel {
    AggregateModel { name, fields: Seq::empty(), synthesized: true }
}

/// `declarations`, followed by a placeholder for the uniform block if none of them is
/// the uniform block, and then by one for the vertex input likewise.
pub open spec fn completed(declarations: Seq<AggregateModel>) -> Seq<AggregateModel> {
    let with_uniforms = if declares(declarations, uniforms_name()) {
        declarations
    } else {
        declarations.push(placeholder(uniforms_name()))
    };
    if declares(declarations, vertex_name()) {
        with_uniforms
    } else {
        with_uniforms.push(placeholder(vertex_name()))
    }
}

/// Everything that is generated for a module: each named aggregate, then the
/// placeholders for the designated aggregates that it lacks.
pub open spec fn generated(graph: Seq<InstructionModel>) -> Result<
    Seq<AggregateModel>,
    GenerationError,
> {
    match emitted(graph, EmissionPolicy::General) {
        Ok(declarations) => Ok(completed(declarations)),
        Err(error) => Err(error),
    }
}

/// The value of what a generation returned.
pub open spec fn generation_of(made: Result<Vec<AggregateDeclaration>, GenerationError>) -> Result<
    Seq<AggregateModel>,
    GenerationError,
> {
    match made {
        Ok(declarations) => Ok(declarations_models(declarations@)),
        Err(error) => Err(error),
    }
}

/// Once a member fails, the fields of every longer prefix fail in the same way.
pub proof fn lemma_field_error_persists(
    graph: Seq<InstructionModel>,
    aggregate: u32,
    member_types: Seq<u32>,
    vertex: bool,
    failed: nat,
    count: nat,
)
    requires
        failed <= count,
        fields_of(graph, aggregate, member_types, vertex, failed) is Err,
    ensures
        fields_of(graph, aggregate, member_types, vertex, count) == fields_of(
            graph,
            aggregate,
            member_types,
            vertex,
            failed,
        ),
    decreases count,
{
    if failed < count {
        lemma_field_error_persists(
            graph,
            aggregate,
            member_types,
            vertex,
            failed,
            (count - 1) as nat,
        );
    }
}

/// Once an aggregate fails, the emission of every longer prefix fails in the same way.
pub proof fn lemma_emission_error_persists(
    graph: Seq<InstructionModel>,
    policy: EmissionPolicy,
    failed: nat,
    count: nat,
)
    requires
        failed <= count,
        emitted_within(graph, policy, failed) is Err,
    ensures
        emitted_within(graph, policy, count) == emitted_within(graph, policy, failed),
    decreases count,
{
    if failed < count {
        lemma_emission_error_persists(graph, policy, failed, (count - 1) as nat);
    }
}

/// Whether the module declares an aggregate whose debug name is `name`.
pub open spec fn declares_aggregate(graph: Seq<InstructionModel>, name: Seq<char>) -> bool {
    exists|at: int|
        0 <= at < graph.len() && #[trigger] graph[at] is TypeStruct && name_of(
            graph,
            graph[at]->TypeStruct_result_id,
        ) == Some(name)
}

/// `declarations` holds the placeholder for `name` once, and nothing else of that
/// name.
pub open spec fn holds_one_placeholder(declarations: Seq<AggregateModel>, name: Seq<char>) -> bool {
    exists|k: int|
        0 <= k < declarations.len() && #[trigger] declarations[k] == placeholder(name) && forall|
            j: int,
        |
            0 <= j < declarations.len() && j != k ==> (#[trigger] declarations[j]).name != name
}

/// Every emitted declaration is that of an aggregate of the module, under its debug
/// name, and none is synthesized.
pub proof fn lemma_emitted_are_declared(
    graph: Seq<InstructionModel>,
    policy: EmissionPolicy,
    count: nat,
)
    requires
        count <= graph.len(),
        emitted_within(graph, policy, count) is Ok,
    ensures
        forall|k: int|
            0 <= k < emitted_within(graph, policy, count)->Ok_0.len() ==> {
                let declaration = #[trigger] emitted_within(graph, policy, count)->Ok_0[k];
                !declaration.synthesized && declares_aggregate(graph, declaration.name)
                    && selects(policy, declaration.name)
            },
    decreases count,
{
    if count > 0 {
        lemma_emitted_are_declared(graph, policy, (count - 1) as nat);
    }
}

/// The uniform block and the vertex input are always declared in what is generated.
/// Where the module declares no aggregate called `Uniforms`, what is generated holds
/// exactly one declaration of that name, the placeholder without fields; the same
/// holds of `Vertex`.
pub proof fn lemma_designated_are_declared(graph: Seq<InstructionModel>)
    requires
        generated(graph) is Ok,
    ensures
        declares(generated(graph)->Ok_0, uniforms_name()),
        declares(generated(graph)->Ok_0, vertex_name()),
        !declares_aggregate(graph, uniforms_name()) ==> holds_one_placeholder(
            generated(graph)->Ok_0,
            uniforms_name(),
        ),
        !declares_aggregate(graph, vertex_name()) ==> holds_one_placeholder(
            generated(graph)->Ok_0,
            vertex_name(),
        ),
{
    reveal_strlit("Uniforms");
    reveal_strlit("Vertex");
    let given = emitted(graph, EmissionPolicy::General)->Ok_0;
    let all = generated(graph)->Ok_0;
    lemma_emitted_are_declared(graph, EmissionPolicy::General, graph.len());
    let with_uniforms = if declares(given, uniforms_name()) {
        given
    } else {
        given.push(placeholder(uniforms_name()))
    };
    if declares(given, uniforms_name()) {
        let k = choose|k: int| 0 <= k < given.len() && #[trigger] given[k].name == uniforms_name();
        assert(all[k].name == uniforms_name());
    } else {
        let k = given.len() as int;
        assert(all[k].name == uniforms_name());
    }
    if declares(given, vertex_name()) {
        let k = choose|k: int| 0 <= k < given.len() && #[trigger] given[k].name == vertex_name();
        assert(all[k].name == vertex_name());
    } else {
        let k = with_uniforms.len() as int;
        assert(all[k].name == vertex_name());
    }
}

/// A named aggregate with a member that has no debug name fails the generation:
/// nothing is declared. The error is `MissingDebugName` unless an earlier aggregate,
/// or an earlier member of this one, fails first.
pub proof fn lemma_unnamed_member_fails(graph: Seq<InstructionModel>, at: int, member: nat)
    requires
        0 <= at < graph.len(),
        graph[at] is TypeStruct,
        name_of(graph, graph[at]->TypeStruct_result_id) is Some,
        member < graph[at]->TypeStruct_member_types.len(),
        member > u32::MAX || member_name_of(
            graph,
            graph[at]->TypeStruct_result_id,
            member as u32,
        ) is None,
    ensures
        generated(graph) is Err,
        emitted_within(graph, EmissionPolicy::General, at as nat) is Ok && fields_of(
            graph,
            graph[at]->TypeStruct_result_id,
            graph[at]->TypeStruct_member_types,
            name_of(graph, graph[at]->TypeStruct_result_id) == Some(vertex_name()),
            member,
        ) is Ok ==> generated(graph) == Err::<Seq<AggregateModel>, GenerationError>(
            GenerationError::MissingDebugName,
        ),
{
    let aggregate = graph[at]->TypeStruct_result_id;
    let member_types = graph[at]->TypeStruct_member_types;
    let vertex = name_of(graph, aggregate) == Some(vertex_name());
    let policy = EmissionPolicy::General;
    lemma_field_error_persists(
        graph,
        aggregate,
        member_types,
        vertex,
        member + 1,
        member_types.len(),
    );
    lemma_emission_error_persists(graph, policy, (at + 1) as nat, graph.len());
}

/// Whether a declaration is called `name`.
pub open spec fn is_called(name: Seq<char>) -> spec_fn(AggregateModel) -> bool {
    |declaration: AggregateModel| declaration.name == name
}

/// Of what the general policy emits from the first `count` instructions, the
/// filtered policy emits those that have the wanted name.
proof fn lemma_filtered_is_a_part(graph: Seq<InstructionModel>, wanted: String, count: nat)
    requires
        count <= graph.len(),
        emitted_within(graph, EmissionPolicy::General, count) is Ok,
    ensures
        emitted_within(graph, EmissionPolicy::Only(wanted), count) == Ok::<
            Seq<AggregateModel>,
            GenerationError,
        >(emitted_within(graph, EmissionPolicy::General, count)->Ok_0.filter(is_called(wanted@))),
    decreases count,
{
    reveal_with_fuel(Seq::filter, 2);
    if count > 0 {
        let before = emitted_within(graph, EmissionPolicy::General, (count - 1) as nat)->Ok_0;
        lemma_filtered_is_a_part(graph, wanted, (count - 1) as nat);
        match aggregate_at(graph, EmissionPolicy::General, count - 1) {
            Ok(Some(declaration)) => {
                assert(before.push(declaration).drop_last() =~= before);
            },
            _ => {},
        }
    }
}

/// Where the general policy emits a module, the filtered policy emits the
/// declarations of the wanted name out of the same, in the same order.
pub proof fn lemma_filtered_emission(graph: Seq<InstructionModel>, wanted: String)
    requires
        emitted(graph, EmissionPolicy::General) is Ok,
    ensures
        emitted(graph, EmissionPolicy::Only(wanted)) == Ok::<Seq<AggregateModel>, GenerationError>(
            emitted(graph, EmissionPolicy::General)->Ok_0.filter(is_called(wanted@)),
        ),
{
    lemma_filtered_is_a_part(graph, wanted, graph.len());
}

/// Whether `text` reads `wanted`.
fn reads(text: &String, wanted: &str) -> (same: bool)
    ensures
        same == (text@ == wanted@),
{
    let other = String::from_str(wanted);
    text.eq(&other)
}

impl EmissionPolicy {
    /// Whether the aggregate called `name` is emitted.
    pub fn selects(&self, name: &String) -> (selected: bool)
        ensures
            selected == selects(*self, name@),
    {
        match self {
            EmissionPolicy::General => true,
            EmissionPolicy::Only(wanted) => name.eq(wanted),
        }
    }
}

fn emit_field(module: &Module, aggregate: u32, index: usize, member_type: u32, vertex: bool) -> (made:
    Result<Field, GenerationError>)
    ensures
        match made {
            Ok(field) => field_of(module@, aggregate, index as nat, member_type, vertex) == Ok::<
                FieldModel,
                GenerationError,
            >(field@),
            Err(error) => field_of(module@, aggregate, index as nat, member_type, vertex) == Err::<
                FieldModel,
                GenerationError,
            >(error),
        },
{
    if index > u32::MAX as usize {
        return Err(GenerationError::MissingDebugName);
    }
    let name = match module.member_name_of(aggregate, index as u32) {
        Some(name) => name.clone(),
        None => return Err(GenerationError::MissingDebugName),
    };
    let ty = match resolve(module, member_type) {
        Ok(ty) => ty,
        Err(error) => return Err(error),
    };
    if vertex {
        match derive_format(module, member_type) {
            Ok(text) => Ok(Field { name, ty, vertex_format: Some(text) }),
            Err(error) => Err(error),
        }
    } else {
        Ok(Field { name, ty, vertex_format: None })
    }
}

fn emit_fields(module: &Module, aggregate: u32, member_types: &Vec<u32>, vertex: bool) -> (made:
    Result<Vec<Field>, GenerationError>)
    ensures
        match made {
            Ok(fields) => fields_of(
                module@,
                aggregate,
                member_types@,
                vertex,
                member_types@.len(),
            ) == Ok::<Seq<FieldModel>, GenerationError>(fields_models(fields@)),
            Err(error) => fields_of(
                module@,
                aggregate,
                member_types@,
                vertex,
                member_types@.len(),
            ) == Err::<Seq<FieldModel>, GenerationError>(error),
        },
{
    let mut fields: Vec<Field> = Vec::new();
    let mut index: usize = 0;
    assert(fields_models(fields@) =~= Seq::empty());
    while index < member_types.len()
        invariant
            index <= member_types.len(),
            fields_of(module@, aggregate, member_types@, vertex, index as nat) == Ok::<
                Seq<FieldModel>,
                GenerationError,
            >(fields_models(fields@)),
        decreases member_types.len() - index,
    {
        let ghost before = fields_models(fields@);
        match emit_field(module, aggregate, index, member_types[index], vertex) {
            Ok(field) => {
                fields.push(field);
                assert(fields_models(fields@) =~= before.push(field@));
            },
            Err(error) => {
                proof {
                    lemma_field_error_persists(
                        module@,
                        aggregate,
                        member_types@,
                        vertex,
                        (index + 1) as nat,
                        member_types@.len(),
                    );
                }
                return Err(error);
            },
        }
        index += 1;
    }
    Ok(fields)
}

fn emit_aggregate(module: &Module, policy: &EmissionPolicy, at: usize) -> (made: Result<
    Option<AggregateDeclaration>,
    GenerationError,
>)
    requires
        at < module@.len(),
    ensures
        match made {
            Ok(Some(declaration)) => aggregate_at(module@, *policy, at as int) == Ok::<
                Option<AggregateModel>,
                GenerationError,
            >(Some(declaration@)),
            Ok(None) => aggregate_at(module@, *policy, at as int) == Ok::<
                Option<AggregateModel>,
                GenerationError,
            >(None),
            Err(error) => aggregate_at(module@, *policy, at as int) == Err::<
                Option<AggregateModel>,
                GenerationError,
            >(error),
        },
{
    let (aggregate, member_types) = match module.get(at) {
        Instruction::TypeStruct { result_id, member_types } => (*result_id, member_types),
        _ => return Ok(None),
    };
    let name = match module.name_of(aggregate) {
        Some(name) => name,
        None => return Ok(None),
    };
    if !policy.selects(name) {
        return Ok(None);
    }
    match emit_fields(module, aggregate, member_types, reads(name, "Vertex")) {
        Ok(fields) => Ok(Some(AggregateDeclaration { name: name.clone(), fields, synthesized: false })),
        Err(error) => Err(error),
    }
}

/// Emits one declaration for each named aggregate of the module that `policy`
/// selects, in declaration order.
///
/// Aggregates without a debug name are skipped. Each member of an emitted aggregate
/// needs a debug name and a layout; the members of the aggregate called `Vertex` also
/// get their wire format. The first member that lacks any of these fails the whole
/// emission.
pub fn emit(module: &Module, policy: &EmissionPolicy) -> (made: Result<
    Vec<AggregateDeclaration>,
    GenerationError,
>)
    ensures
        generation_of(made) == emitted(module@, *policy),
{
    let mut declarations: Vec<AggregateDeclaration> = Vec::new();
    let mut at: usize = 0;
    assert(declarations_models(declarations@) =~= Seq::empty());
    while at < module.len()
        invariant
            at <= module@.len(),
            emitted_within(module@, *policy, at as nat) == Ok::<
                Seq<AggregateModel>,
                GenerationError,
            >(declarations_models(declarations@)),
        decreases module@.len() - at,
    {
        let ghost before = declarations_models(declarations@);
        match emit_aggregate(module, policy, at) {
            Ok(Some(declaration)) => {
                declarations.push(declaration);
                assert(declarations_models(declarations@) =~= before.push(declaration@));
            },
            Ok(None) => {},
            Err(error) => {
                proof {
                    lemma_emission_error_persists(
                        module@,
                        *policy,
                        (at + 1) as nat,
                        module@.len(),
                    );
                }
                return Err(error);
            },
        }
        at += 1;
    }
    Ok(declarations)
}

/// Whether one of `declarations` is called `name`.
pub fn has_declaration(declarations: &Vec<AggregateDeclaration>, name: &str) -> (found: bool)
    ensures
        found == declares(declarations_models(declarations@), name@),
{
    let mut at: usize = 0;
    while at < declarations.len()
        invariant
            at <= declarations.len(),
            forall|k: int| 0 <= k < at ==> declarations_models(declarations@)[k].name != name@,
        decreases declarations.len() - at,
    {
        if reads(&declarations[at].name, name) {
            assert(declarations_models(declarations@)[at as int].name == name@);
            return true;
        }
        at += 1;
    }
    false
}

fn synthesized_declaration(name: &str) -> (made: AggregateDeclaration)
    ensures
        made@ == placeholder(name@),
{
    let made = AggregateDeclaration {
        name: String::from_str(name),
        fields: Vec::new(),
        synthesized: true,
    };
    assert(fields_models(made.fields@) =~= Seq::empty());
    made
}

/// Makes sure that the uniform block and the vertex input are declared: appends a
/// placeholder for `Uniforms` if none of `declarations` has that name, and then one
/// for `Vertex` likewise.
pub fn synthesize(declarations: Vec<AggregateDeclaration>) -> (all: Vec<AggregateDeclaration>)
    ensures
        declarations_models(all@) == completed(declarations_models(declarations@)),
{
    let has_uniforms = has_declaration(&declarations, "Uniforms");
    let has_vertex = has_declaration(&declarations, "Vertex");
    let mut all = declarations;
    if !has_uniforms {
        let made = synthesized_declaration("Uniforms");
        all.push(made);
    }
    if !has_vertex {
        let made = synthesized_declaration("Vertex");
        all.push(made);
    }
    all
}

/// Generates the declarations of a module: one for each named aggregate, in
/// declaration order, then the placeholders for `Uniforms` and `Vertex` where the
/// module declares none. Any failure leaves no declarations.
pub fn generate(module: &Module) -> (made: Result<Vec<AggregateDeclaration>, GenerationError>)
    ensures
        generation_of(made) == generated(module@),
{
    match emit(module, &EmissionPolicy::General) {
        Ok(declarations) => Ok(synthesize(declarations)),
        Err(error) => Err(error),
    }
}

} // verus!
