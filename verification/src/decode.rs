//! From the bytes of a compiled module to its instruction graph, by way of
//! `vulkano`'s parser.

use vstd::prelude::*;
use vulkano::shader::spirv::Instruction::{
    MemberName, Name, TypeFloat, TypeInt, TypeMatrix, TypeStruct, TypeVector,
};
use vulkano::shader::spirv::{bytes_to_words, Id, Spirv, SpirvError};
use crate::error::GenerationError;
use crate::graph::{models_of, unique_ids, Instruction, InstructionModel, Module};
use crate::stream::{
    blank, blanked, is_well_guarded, lemma_guarded_iff_presentable, presentable, well_guarded,
    HEADER_WORDS, MAGIC,
};

verus! {

/// A module as `vulkano` parsed it. Nothing is known of what is inside but by
/// [`names_of`] and [`types_of`].
#[verifier::external_type_specification]
#[verifier::external_body]
pub struct ExSpirv(vulkano::shader::spirv::Spirv);

/// Why `vulkano` could not parse a module.
#[verifier::external_type_specification]
#[verifier::external_body]
pub struct ExSpirvError(vulkano::shader::spirv::SpirvError);

/// The name and member-name instructions that `Spirv::names` holds, in order.
pub uninterp spec fn names_of(spirv: Spirv) -> Seq<InstructionModel>;

/// The type instructions that `Spirv::types` holds, in order.
pub uninterp spec fn types_of(spirv: Spirv) -> Seq<InstructionModel>;

/// What `Spirv::new` makes of `words`: the names and the types of the parsed module,
/// or nothing where it reports an error.
pub uninterp spec fn parsed(words: Seq<u32>) -> Option<
    (Seq<InstructionModel>, Seq<InstructionModel>),
>;

/// The word that four bytes spell, the lowest byte first.
pub open spec fn word_of(b0: u8, b1: u8, b2: u8, b3: u8) -> u32 {
    (b0 + 256 * b1 + 65536 * b2 + 16777216 * b3) as u32
}

/// The words that `bytes` spell, four bytes to a word, the lowest byte first.
pub open spec fn words_of(bytes: Seq<u8>) -> Seq<u32> {
    Seq::new(
        bytes.len() / 4,
        |k: int| word_of(bytes[4 * k], bytes[4 * k + 1], bytes[4 * k + 2], bytes[4 * k + 3]),
    )
}

/// Calls `vulkano::shader::spirv::bytes_to_words`, which reads the bytes as
/// little-endian words whatever the machine's byte order and the buffer's alignment,
/// and refuses a length that is no multiple of four.
#[verifier::external_body]
fn to_words(bytes: &[u8]) -> (words: Option<Vec<u32>>)
    ensures
        match words {
            Some(words) => bytes@.len() % 4 == 0 && words@ == words_of(bytes@),
            None => bytes@.len() % 4 != 0,
        },
{
    bytes_to_words(bytes).ok().map(|words| words.into_owned())
}

/// Calls `vulkano::shader::spirv::Spirv::new`.
///
/// The parser aborts on an instruction of no words; on the largest id as a result id,
/// which is the first or the second operand of its instruction; on the end of a
/// function outside a function; on a module without a memory model outside function
/// bodies; on a decoration of an id, a member or a group that the module lacks; and on
/// the name of a member that the aggregate type of that id lacks. A well-guarded
/// module has none of these, so the call returns. What it returns depends on the
/// words alone: `parsed` names it, by what the module then holds.
#[verifier::external_body]
fn parse(words: &[u32]) -> (made: Result<Spirv, SpirvError>)
    requires
        well_guarded(words@),
    ensures
        match made {
            Ok(spirv) => parsed(words@) == Some((names_of(spirv), types_of(spirv))),
            Err(_) => parsed(words@) is None,
        },
{
    Spirv::new(words)
}

/// Reads entry `at` of `Spirv::names`, if there is one. The entries are the name and
/// member-name instructions outside function bodies, in stream order, whose target
/// the module defines. Each is handed out field by field; `names_of` names them.
#[verifier::external_body]
fn name_at(spirv: &Spirv, at: usize) -> (held: Option<Instruction>)
    ensures
        match held {
            Some(instruction) => at < names_of(*spirv).len() && instruction@ == names_of(
                *spirv,
            )[at as int],
            None => at >= names_of(*spirv).len(),
        },
{
    Some(match spirv.names().get(at)? {
        Name { target, name } => Instruction::Name { target: target.as_raw(), name: name.clone() },
        MemberName { ty, member, name } => Instruction::MemberName {
            target: ty.as_raw(), member: *member, name: name.clone() },
        other => Instruction::Other { assigns: other.result_id().map(Id::as_raw) },
    })
}

/// Reads entry `at` of `Spirv::types`, if there is one. The entries are the type
/// instructions outside function bodies, in stream order. A float, an integer, a
/// vector, a matrix and an aggregate are handed out field by field, any other type
/// with the id that it assigns; `types_of` names them.
#[verifier::external_body]
fn type_at(spirv: &Spirv, at: usize) -> (held: Option<Instruction>)
    ensures
        match held {
            Some(instruction) => at < types_of(*spirv).len() && instruction@ == types_of(
                *spirv,
            )[at as int],
            None => at >= types_of(*spirv).len(),
        },
{
    Some(match spirv.types().get(at)? {
        &TypeFloat { result_id, width } => Instruction::TypeFloat { result_id: result_id.as_raw(), width },
        &TypeInt { result_id, width, .. } => Instruction::TypeInt { result_id: result_id.as_raw(), width },
        &TypeVector { result_id, component_type, component_count } => Instruction::TypeVector {
            result_id: result_id.as_raw(), component_type: component_type.as_raw(), component_count },
        &TypeMatrix { result_id, column_type, column_count } => Instruction::TypeMatrix {
            result_id: result_id.as_raw(), column_type: column_type.as_raw(), column_count },
        TypeStruct { result_id, member_types } => Instruction::TypeStruct {
            result_id: result_id.as_raw(), member_types: member_types.iter().copied().map(Id::as_raw).collect() },
        other => Instruction::Other { assigns: other.result_id().map(Id::as_raw) },
    })
}

/// The graph that a parsed module holds: its names, then its types.
pub open spec fn graph_of(names: Seq<InstructionModel>, types: Seq<InstructionModel>) -> Result<
    Seq<InstructionModel>,
    GenerationError,
> {
    if unique_ids(names + types) {
        Ok(names + types)
    } else {
        Err(GenerationError::MalformedBinary)
    }
}

/// The graph of the module that `words` spell.
pub open spec fn decoded_words(words: Seq<u32>) -> Result<Seq<InstructionModel>, GenerationError> {
    if words.len() < HEADER_WORDS || words[0] != MAGIC || !presentable(words) {
        Err(GenerationError::MalformedBinary)
    } else {
        match parsed(blanked(words)) {
            Some((names, types)) => graph_of(names, types),
            None => Err(GenerationError::MalformedBinary),
        }
    }
}

/// The graph of the module that `bytes` hold.
pub open spec fn decoded(bytes: Seq<u8>) -> Result<Seq<InstructionModel>, GenerationError> {
    if bytes.len() % 4 != 0 {
        Err(GenerationError::MalformedBinary)
    } else {
        decoded_words(words_of(bytes))
    }
}

/// The value of what a decoding returned.
pub open spec fn decoding_of(made: Result<Module, GenerationError>) -> Result<
    Seq<InstructionModel>,
    GenerationError,
> {
    match made {
        Ok(module) => Ok(module@),
        Err(error) => Err(error),
    }
}

/// Collects what a parsed module holds: its names, then its types.
fn collect(spirv: &Spirv) -> (all: Vec<Instruction>)
    ensures
        models_of(all@) == names_of(*spirv) + types_of(*spirv),
{
    let mut all: Vec<Instruction> = Vec::new();
    loop
        invariant_except_break
            all@.len() <= names_of(*spirv).len(),
            models_of(all@) == names_of(*spirv).subrange(0, all@.len() as int),
        ensures
            models_of(all@) == names_of(*spirv),
        decreases names_of(*spirv).len() - all@.len(),
    {
        match name_at(spirv, all.len()) {
            Some(instruction) => {
                all.push(instruction);
            },
            None => {
                break ;
            },
        }
    }
    let names = all.len();
    loop
        invariant_except_break
            names == names_of(*spirv).len(),
            names <= all@.len() <= names + types_of(*spirv).len(),
            models_of(all@) == names_of(*spirv) + types_of(*spirv).subrange(
                0,
                all@.len() - names,
            ),
        ensures
            models_of(all@) == names_of(*spirv) + types_of(*spirv),
        decreases names + types_of(*spirv).len() - all@.len(),
    {
        let ghost before = models_of(all@);
        match type_at(spirv, all.len() - names) {
            Some(instruction) => {
                all.push(instruction);
                assert(models_of(all@) =~= before.push(instruction@));
            },
            None => {
                break ;
            },
        }
    }
    all
}

/// Decodes the words of a module into its instruction graph.
///
/// The module is malformed if it does not open with the magic number, if it is not
/// presentable (an instruction runs past the end, say), if it does not parse once its
/// decorations and the names of members that no aggregate has are blanked out, or if
/// it assigns an id twice.
pub fn decode_words(words: &[u32]) -> (made: Result<Module, GenerationError>)
    ensures
        decoding_of(made) == decoded_words(words@),
{
    if words.len() < HEADER_WORDS || words[0] != MAGIC {
        return Err(GenerationError::MalformedBinary);
    }
    let clean = blank(words);
    proof {
        lemma_guarded_iff_presentable(words@);
    }
    if !is_well_guarded(clean.as_slice()) {
        return Err(GenerationError::MalformedBinary);
    }
    match parse(clean.as_slice()) {
        Ok(spirv) => Module::new(collect(&spirv)),
        Err(_) => Err(GenerationError::MalformedBinary),
    }
}

/// Decodes the bytes of a module into its instruction graph. Nothing is returned of
/// a module that is malformed anywhere.
pub fn decode(bytes: &[u8]) -> (made: Result<Module, GenerationError>)
    ensures
        decoding_of(made) == decoded(bytes@),
{
    match to_words(bytes) {
        Some(words) => decode_words(words.as_slice()),
        None => Err(GenerationError::MalformedBinary),
    }
}

} // verus!
