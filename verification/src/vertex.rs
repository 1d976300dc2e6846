//! The wire format of a vertex attribute.

use vstd::prelude::*;
use vstd::string::*;
use crate::error::{GenerationError, InstructionKind};
use crate::graph::{instruction_of, Instruction, InstructionModel, Module};

verus! {

/// The numeric kind of a vertex attribute's components.
#[derive(Clone, Copy, Debug, PartialEq, Eq, Structural)]
pub enum NumericKind {
    Uint,
    Sfloat,
}

/// The tag that a wire format ends in.
pub open spec fn tag_text(kind: NumericKind) -> Seq<char> {
    match kind {
        NumericKind::Uint => "UINT"@,
        NumericKind::Sfloat => "SFLOAT"@,
    }
}

/// The decimal digit of `value`, which is below ten.
pub open spec fn digit(value: nat) -> char {
    if value == 0 {
        '0'
    } else if value == 1 {
        '1'
    } else if value == 2 {
        '2'
    } else if value == 3 {
        '3'
    } else if value == 4 {
        '4'
    } else if value == 5 {
        '5'
    } else if value == 6 {
        '6'
    } else if value == 7 {
        '7'
    } else if value == 8 {
        '8'
    } else {
        '9'
    }
}

/// `value` in decimal, without leading zeros.
pub open spec fn decimal(value: nat) -> Seq<char>
    decreases value,
{
    if value < 10 {
        seq![digit(value)]
    } else {
        decimal(value / 10).push(digit(value % 10))
    }
}

/// The label of component `index`; there are four.
pub open spec fn label(index: nat) -> char {
    if index == 0 {
        'R'
    } else if index == 1 {
        'G'
    } else if index == 2 {
        'B'
    } else {
        'A'
    }
}

/// For each of the first `count` components its label and `width`.
pub open spec fn components(count: nat, width: nat) -> Seq<char>
    decreases count,
{
    if count == 0 {
        Seq::empty()
    } else {
        components((count - 1) as nat, width).push(label((count - 1) as nat)) + decimal(width)
    }
}

/// The wire format of `count` components of `width` bits and of numeric kind `kind`,
/// such as `R32G32_SFLOAT`.
pub open spec fn format_text(count: nat, width: nat, kind: NumericKind) -> Seq<char> {
    components(count, width).push('_') + tag_text(kind)
}

/// The id of the scalar type of the attribute type `type_id`, and the number of its
/// components: those of a vector, or the type itself, once.
pub open spec fn attribute_shape(graph: Seq<InstructionModel>, type_id: u32) -> (u32, u32) {
    match instruction_of(graph, type_id) {
        Some(InstructionModel::TypeVector { component_type, component_count, .. }) => (
            component_type,
            component_count,
        ),
        _ => (type_id, 1u32),
    }
}

/// The wire format of an attribute of type `type_id`.
pub open spec fn derived_format(graph: Seq<InstructionModel>, type_id: u32) -> Result<
    Seq<char>,
    GenerationError,
> {
    let (scalar, count) = attribute_shape(graph, type_id);
    match instruction_of(graph, scalar) {
        None => Err(GenerationError::MalformedBinary),
        Some(InstructionModel::TypeInt { width, .. }) => if count <= 4 {
            Ok(format_text(count as nat, width as nat, NumericKind::Uint))
        } else {
            Err(GenerationError::UnsupportedType(InstructionKind::TypeVector))
        },
        Some(InstructionModel::TypeFloat { width, .. }) => if count <= 4 {
            Ok(format_text(count as nat, width as nat, NumericKind::Sfloat))
        } else {
            Err(GenerationError::UnsupportedType(InstructionKind::TypeVector))
        },
        Some(other) => Err(GenerationError::UnsupportedType(other.kind())),
    }
}

/// The value of what a derivation returned.
pub open spec fn text_of(derived: Result<String, GenerationError>) -> Result<
    Seq<char>,
    GenerationError,
> {
    match derived {
        Ok(text) => Ok(text@),
        Err(error) => Err(error),
    }
}

fn digit_text(value: u32) -> (text: &'static str)
    requires
        value < 10,
    ensures
        text@ == seq![digit(value as nat)],
{
    proof {
        reveal_strlit("0");
        reveal_strlit("1");
        reveal_strlit("2");
        reveal_strlit("3");
        reveal_strlit("4");
        reveal_strlit("5");
        reveal_strlit("6");
        reveal_strlit("7");
        reveal_strlit("8");
        reveal_strlit("9");
    }
    let text = if value == 0 {
        "0"
    } else if value == 1 {
        "1"
    } else if value == 2 {
        "2"
    } else if value == 3 {
        "3"
    } else if value == 4 {
        "4"
    } else if value == 5 {
        "5"
    } else if value == 6 {
        "6"
    } else if value == 7 {
        "7"
    } else if value == 8 {
        "8"
    } else {
        "9"
    };
    text
}

fn label_text(index: u32) -> (text: &'static str)
    requires
        index < 4,
    ensures
        text@ == seq![label(index as nat)],
{
    proof {
        reveal_strlit("R");
        reveal_strlit("G");
        reveal_strlit("B");
        reveal_strlit("A");
    }
    let text = if index == 0 {
        "R"
    } else if index == 1 {
        "G"
    } else if index == 2 {
        "B"
    } else {
        "A"
    };
    text
}

/// `value` in decimal.
pub fn decimal_text(value: u32) -> (text: String)
    ensures
        text@ == decimal(value as nat),
    decreases value,
{
    if value < 10 {
        String::from_str(digit_text(value))
    } else {
        let mut text = decimal_text(value / 10);
        text.append(digit_text(value % 10));
        text
    }
}

impl NumericKind {
    /// The tag that a wire format of this kind ends in.
    pub fn tag(self) -> (text: &'static str)
        ensures
            text@ == tag_text(self),
    {
        match self {
            NumericKind::Uint => "UINT",
            NumericKind::Sfloat => "SFLOAT",
        }
    }
}

/// Writes the wire format of `count` components of `width` bits.
pub fn format_of(count: u32, width: u32, kind: NumericKind) -> (text: String)
    requires
        count <= 4,
    ensures
        text@ == format_text(count as nat, width as nat, kind),
{
    let digits = decimal_text(width);
    let mut text = String::new();
    let mut index: u32 = 0;
    while index < count
        invariant
            index <= count <= 4,
            digits@ == decimal(width as nat),
            text@ == components(index as nat, width as nat),
        decreases count - index,
    {
        text.append(label_text(index));
        text.append(digits.as_str());
        index += 1;
    }
    proof {
        reveal_strlit("_");
    }
    text.append("_");
    text.append(kind.tag());
    text
}

/// Derives the wire format of a vertex attribute of type `type_id`.
///
/// A vector gives its component count and its component type; any other type counts
/// as one component of itself. The scalar must be an integer (`UINT`) or a float
/// (`SFLOAT`). The format names each component by its label and the scalar's width.
pub fn derive_format(module: &Module, type_id: u32) -> (derived: Result<String, GenerationError>)
    ensures
        text_of(derived) == derived_format(module@, type_id),
{
    let (scalar, count) = match module.instruction_of(type_id) {
        Some(Instruction::TypeVector { component_type, component_count, .. }) => (
            *component_type,
            *component_count,
        ),
        _ => (type_id, 1),
    };
    match module.instruction_of(scalar) {
        None => Err(GenerationError::MalformedBinary),
        Some(Instruction::TypeInt { width, .. }) => if count <= 4 {
            Ok(format_of(count, *width, NumericKind::Uint))
        } else {
            Err(GenerationError::UnsupportedType(InstructionKind::TypeVector))
        },
        Some(Instruction::TypeFloat { width, .. }) => if count <= 4 {
            Ok(format_of(count, *width, NumericKind::Sfloat))
        } else {
            Err(GenerationError::UnsupportedType(InstructionKind::TypeVector))
        },
        Some(other) => Err(GenerationError::UnsupportedType(other.kind())),
    }
}

} // verus!
