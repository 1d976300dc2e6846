//! Host memory layouts for the aggregates that a compiled shader module declares.
//!
//! A module is held as an indexed instruction graph. From it the crate resolves every
//! named aggregate to a layout-level type, derives the wire format of each vertex
//! attribute and emits one declaration per aggregate, so that host types can match the
//! shader's expectations byte for byte.
//!
//! [`shader`] does all of it from the bytes of a module. Its steps are [`decode`],
//! which builds the graph, and [`emit::generate`], which declares the aggregates;
//! [`layout::resolve`] and [`vertex::derive_format`] serve the latter for each member.

use vstd::prelude::*;

pub mod decode;
pub mod emit;
pub mod error;
pub mod graph;
pub mod layout;
pub mod stream;
pub mod vertex;

use crate::decode::{decode, decoded};
use crate::emit::{generate, generated, generation_of, AggregateDeclaration, AggregateModel};
use crate::error::GenerationError;

verus! {

/// What is generated for the module that `bytes` hold.
pub open spec fn shader_of(bytes: Seq<u8>) -> Result<Seq<AggregateModel>, GenerationError> {
    match decoded(bytes) {
        Ok(graph) => generated(graph),
        Err(error) => Err(error),
    }
}

/// Generates the declarations for the compiled module that `bytes` hold: decodes it
/// and emits its named aggregates, `Uniforms` and `Vertex` always among them.
pub fn shader(bytes: &[u8]) -> (made: Result<Vec<AggregateDeclaration>, GenerationError>)
    ensures
        generation_of(made) == shader_of(bytes@),
{
    match decode(bytes) {
        Ok(module) => generate(&module),
        Err(error) => Err(error),
    }
}

} // verus!
