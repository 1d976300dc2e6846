//! Why a generation fails.

use vstd::prelude::*;

verus! {

/// What an instruction is, as far as layout derivation tells instructions apart.
#[derive(Clone, Copy, Debug, PartialEq, Eq, Structural)]
pub enum InstructionKind {
    TypeFloat,
    TypeInt,
    TypeVector,
    TypeMatrix,
    TypeStruct,
    Name,
    MemberName,
    Other,
}

/// Why no declarations could be generated. Every error is fatal to the whole run.
#[derive(Clone, Copy, Debug, PartialEq, Eq, Structural)]
pub enum GenerationError {
    /// The input is not a well-formed module: the stream does not parse, an id is
    /// assigned twice, a type refers to an id that nothing defines, or types nest
    /// without end.
    MalformedBinary,
    /// An instruction kind, a scalar width or a matrix row count has no layout. The
    /// kind is that of the offending instruction.
    UnsupportedType(InstructionKind),
    /// An aggregate that is referenced by name, or one of the members of an emitted
    /// aggregate, has no debug name.
    MissingDebugName,
}

} // verus!
