//! The kinds of value that an array can hold.

use crate::error::Error;
use crate::primitive_type::PrimitiveType;
use vstd::prelude::*;

verus! {

/// A kind of array element: the tags of [`PrimitiveType`] that carry data.
#[derive(Clone, Copy, PartialEq, Eq, Debug, Structural)]
pub enum ElementType {
    Pred,
    S8,
    S16,
    S32,
    S64,
    U8,
    U16,
    U32,
    U64,
    F16,
    F32,
    Bf16,
    F64,
    C64,
    C128,
}

impl ElementType {
    /// The number of bytes that one element of this type takes.
    pub open spec fn spec_element_size_in_bytes(self) -> nat {
        match self {
            ElementType::Pred => 1,
            ElementType::S8 => 1,
            ElementType::S16 => 2,
            ElementType::S32 => 4,
            ElementType::S64 => 8,
            ElementType::U8 => 1,
            ElementType::U16 => 2,
            ElementType::U32 => 4,
            ElementType::U64 => 8,
            ElementType::F16 => 2,
            ElementType::F32 => 4,
            ElementType::Bf16 => 2,
            ElementType::F64 => 8,
            ElementType::C64 => 8,
            ElementType::C128 => 16,
        }
    }

    /// The tag by which the runtime knows this element type.
    pub open spec fn spec_primitive_type(self) -> PrimitiveType {
        match self {
            ElementType::Pred => PrimitiveType::Pred,
            ElementType::S8 => PrimitiveType::S8,
            ElementType::S16 => PrimitiveType::S16,
            ElementType::S32 => PrimitiveType::S32,
            ElementType::S64 => PrimitiveType::S64,
            ElementType::U8 => PrimitiveType::U8,
            ElementType::U16 => PrimitiveType::U16,
            ElementType::U32 => PrimitiveType::U32,
            ElementType::U64 => PrimitiveType::U64,
            ElementType::F16 => PrimitiveType::F16,
            ElementType::F32 => PrimitiveType::F32,
            ElementType::Bf16 => PrimitiveType::Bf16,
            ElementType::F64 => PrimitiveType::F64,
            ElementType::C64 => PrimitiveType::C64,
            ElementType::C128 => PrimitiveType::C128,
        }
    }

    /// The size for this element type in bytes.
    pub fn element_size_in_bytes(&self) -> (size: usize)
        ensures
            size == self.spec_element_size_in_bytes(),
            1 <= size <= 16,
    {
        match self {
            Self::Pred => 1,
            Self::S8 => 1,
            Self::S16 => 2,
            Self::S32 => 4,
            Self::S64 => 8,
            Self::U8 => 1,
            Self::U16 => 2,
            Self::U32 => 4,
            Self::U64 => 8,
            Self::F16 => 2,
            Self::F32 => 4,
            Self::Bf16 => 2,
            Self::F64 => 8,
            Self::C64 => 8,
            Self::C128 => 16,
        }
    }

    /// The tag by which the runtime knows this element type.
    pub fn primitive_type(&self) -> (tag: PrimitiveType)
        ensures
            tag == self.spec_primitive_type(),
            tag.is_element_type(),
            tag.spec_element_type() == Ok::<ElementType, Error>(*self),
    {
        proof {
            lemma_element_type_round_trip(*self);
        }
        match self {
            Self::Pred => PrimitiveType::Pred,
            Self::S8 => PrimitiveType::S8,
            Self::S16 => PrimitiveType::S16,
            Self::S32 => PrimitiveType::S32,
            Self::S64 => PrimitiveType::S64,
            Self::U8 => PrimitiveType::U8,
            Self::U16 => PrimitiveType::U16,
            Self::U32 => PrimitiveType::U32,
            Self::U64 => PrimitiveType::U64,
            Self::F16 => PrimitiveType::F16,
            Self::F32 => PrimitiveType::F32,
            Self::Bf16 => PrimitiveType::Bf16,
            Self::F64 => PrimitiveType::F64,
            Self::C64 => PrimitiveType::C64,
            Self::C128 => PrimitiveType::C128,
        }
    }
}

/// No two element types share a tag.
pub proof fn lemma_primitive_type_injective(a: ElementType, b: ElementType)
    requires
        a.spec_primitive_type() == b.spec_primitive_type(),
    ensures
        a == b,
{
}

/// Going from an element type to its tag and back gives the element type again.
pub proof fn lemma_element_type_round_trip(e: ElementType)
    ensures
        e.spec_primitive_type().is_element_type(),
        e.spec_primitive_type().spec_element_type() == Ok::<ElementType, Error>(e),
{
    let t = e.spec_primitive_type();
    assert(t.has_element_type(e));
    let chosen = choose|c: ElementType| t.has_element_type(c);
    lemma_primitive_type_injective(chosen, e);
}

} // verus!
