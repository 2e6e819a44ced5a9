//! The type tags of the runtime, as they cross the native boundary.

use crate::element_type::ElementType;
use crate::error::Error;
use vstd::prelude::*;

verus! {

/// The type tags that the XLA runtime knows. `S8` is a signed integer of one
/// byte, `U32` an unsigned one of four, `C64` a complex number of two `F32`.
/// `Tuple`, `OpaqueType` and `Token` name values that hold no array data.
///
/// The variants stand in the order of the runtime's numbers, which run from 0
/// to 18 with none left out: a tag cast to an integer is its number on the
/// wire. A variant must not be moved, nor one put between two others.
#[derive(Clone, Copy, PartialEq, Eq, Debug, Structural)]
pub enum PrimitiveType {
    Invalid,
    Pred,
    S8,
    S16,
    S32,
    S64,
    U8,
    U16,
    U32,
    U64,
    F16,
    F32,
    F64,
    Tuple,
    OpaqueType,
    C64,
    Bf16,
    Token,
    C128,
}

impl PrimitiveType {
    /// The number that the runtime gives this tag. The numbers are the
    /// runtime's own and are the same on both sides of the native boundary.
    pub open spec fn spec_discriminant(self) -> int {
        match self {
            PrimitiveType::Invalid => 0,
            PrimitiveType::Pred => 1,
            PrimitiveType::S8 => 2,
            PrimitiveType::S16 => 3,
            PrimitiveType::S32 => 4,
            PrimitiveType::S64 => 5,
            PrimitiveType::U8 => 6,
            PrimitiveType::U16 => 7,
            PrimitiveType::U32 => 8,
            PrimitiveType::U64 => 9,
            PrimitiveType::F16 => 10,
            PrimitiveType::F32 => 11,
            PrimitiveType::F64 => 12,
            PrimitiveType::Tuple => 13,
            PrimitiveType::OpaqueType => 14,
            PrimitiveType::C64 => 15,
            PrimitiveType::Bf16 => 16,
            PrimitiveType::Token => 17,
            PrimitiveType::C128 => 18,
        }
    }

    /// The tag that the runtime numbers `tag`, if it numbers one so.
    pub open spec fn spec_from_discriminant(tag: int) -> Option<PrimitiveType> {
        if exists|t: PrimitiveType| t.spec_discriminant() == tag {
            Some(choose|t: PrimitiveType| t.spec_discriminant() == tag)
        } else {
            None
        }
    }

    /// Whether `e` is the element type that this tag stands for.
    pub open spec fn has_element_type(self, e: ElementType) -> bool {
        e.spec_primitive_type() == self
    }

    /// Whether the tag names a kind of array element. The tags that do not
    /// are `Invalid`, `Tuple`, `OpaqueType` and `Token`.
    pub open spec fn is_element_type(self) -> bool {
        !(self is Invalid || self is Tuple || self is OpaqueType || self is Token)
    }

    /// The element type that this tag stands for: the one whose tag it is.
    /// A tag that is no element's tag gives `NotAnElementType`, with itself in it.
    pub open spec fn spec_element_type(self) -> Result<ElementType, Error> {
        if exists|e: ElementType| self.has_element_type(e) {
            Ok(choose|e: ElementType| self.has_element_type(e))
        } else {
            Err(Error::NotAnElementType { got: self })
        }
    }

    /// The number that the runtime gives this tag, which is also what a cast
    /// of the tag to an integer gives.
    pub fn discriminant(self) -> (tag: i32)
        ensures
            tag == self.spec_discriminant(),
            tag == self as i32,
    {
        match self {
            Self::Invalid => 0,
            Self::Pred => 1,
            Self::S8 => 2,
            Self::S16 => 3,
            Self::S32 => 4,
            Self::S64 => 5,
            Self::U8 => 6,
            Self::U16 => 7,
            Self::U32 => 8,
            Self::U64 => 9,
            Self::F16 => 10,
            Self::F32 => 11,
            Self::F64 => 12,
            Self::Tuple => 13,
            Self::OpaqueType => 14,
            Self::C64 => 15,
            Self::Bf16 => 16,
            Self::Token => 17,
            Self::C128 => 18,
        }
    }

    /// Reads a number that came from the runtime as a tag. A number that the
    /// runtime gives to no tag is refused with `None`, never taken for some
    /// tag by default.
    pub fn from_i32(tag: i32) -> (decoded: Option<PrimitiveType>)
        ensures
            decoded == Self::spec_from_discriminant(tag as int),
            decoded is Some <==> 0 <= tag <= 18,
            decoded matches Some(t) ==> t.spec_discriminant() == tag && t as i32 == tag,
    {
        let decoded = match tag {
            0 => Some(Self::Invalid),
            1 => Some(Self::Pred),
            2 => Some(Self::S8),
            3 => Some(Self::S16),
            4 => Some(Self::S32),
            5 => Some(Self::S64),
            6 => Some(Self::U8),
            7 => Some(Self::U16),
            8 => Some(Self::U32),
            9 => Some(Self::U64),
            10 => Some(Self::F16),
            11 => Some(Self::F32),
            12 => Some(Self::F64),
            13 => Some(Self::Tuple),
            14 => Some(Self::OpaqueType),
            15 => Some(Self::C64),
            16 => Some(Self::Bf16),
            17 => Some(Self::Token),
            18 => Some(Self::C128),
            _ => None,
        };
        proof {
            lemma_discriminant_range(tag as int);
            if let Some(t) = decoded {
                lemma_discriminant_round_trip(t);
            }
        }
        decoded
    }

    /// As `from_i32`, for a number of 64 bits.
    pub fn from_i64(tag: i64) -> (decoded: Option<PrimitiveType>)
        ensures
            decoded == Self::spec_from_discriminant(tag as int),
            decoded is Some <==> 0 <= tag <= 18,
            decoded matches Some(t) ==> t.spec_discriminant() == tag && t as i64 == tag,
    {
        if 0 <= tag && tag <= 18 {
            Self::from_i32(tag as i32)
        } else {
            proof {
                lemma_discriminant_range(tag as int);
            }
            None
        }
    }

    /// As `from_i32`, for an unsigned number of 64 bits.
    pub fn from_u64(tag: u64) -> (decoded: Option<PrimitiveType>)
        ensures
            decoded == Self::spec_from_discriminant(tag as int),
            decoded is Some <==> tag <= 18,
            decoded matches Some(t) ==> t.spec_discriminant() == tag && t as u64 == tag,
    {
        if tag <= 18 {
            Self::from_i32(tag as i32)
        } else {
            proof {
                lemma_discriminant_range(tag as int);
            }
            None
        }
    }

    /// Reads a tag of the runtime as the element type it stands for.
    /// `Invalid`, `Tuple`, `OpaqueType` and `Token` stand for none.
    pub fn element_type(self) -> (element: Result<ElementType, Error>)
        ensures
            element == self.spec_element_type(),
            element is Ok <==> self.is_element_type(),
            element matches Ok(e) ==> e.spec_primitive_type() == self,
            element matches Err(err) ==> err == (Error::NotAnElementType { got: self }),
    {
        let element = match self {
            Self::Pred => Ok(ElementType::Pred),
            Self::S8 => Ok(ElementType::S8),
            Self::S16 => Ok(ElementType::S16),
            Self::S32 => Ok(ElementType::S32),
            Self::S64 => Ok(ElementType::S64),
            Self::U8 => Ok(ElementType::U8),
            Self::U16 => Ok(ElementType::U16),
            Self::U32 => Ok(ElementType::U32),
            Self::U64 => Ok(ElementType::U64),
            Self::F16 => Ok(ElementType::F16),
            Self::F32 => Ok(ElementType::F32),
            Self::Bf16 => Ok(ElementType::Bf16),
            Self::F64 => Ok(ElementType::F64),
            Self::C64 => Ok(ElementType::C64),
            Self::C128 => Ok(ElementType::C128),
            Self::Invalid | Self::Tuple | Self::OpaqueType | Self::Token => {
                Err(Error::NotAnElementType { got: self })
            },
        };
        proof {
            if self.is_element_type() {
                lemma_primitive_type_round_trip(self);
            } else {
                lemma_not_an_element_type(self);
            }
        }
        element
    }
}

/// A tag cast to an integer is the number that the runtime gives it.
pub proof fn lemma_cast_is_discriminant(t: PrimitiveType)
    ensures
        t as i32 == t.spec_discriminant(),
        t as int == t.spec_discriminant(),
{
}

/// No two tags share a number.
pub proof fn lemma_discriminant_injective(a: PrimitiveType, b: PrimitiveType)
    requires
        a.spec_discriminant() == b.spec_discriminant(),
    ensures
        a == b,
{
}

/// The numbers of the tags are those from 0 to 18, none left out.
pub proof fn lemma_discriminant_range(tag: int)
    ensures
        PrimitiveType::spec_from_discriminant(tag) is Some <==> 0 <= tag <= 18,
{
    if 0 <= tag <= 18 {
        let t = if tag == 0 {
            PrimitiveType::Invalid
        } else if tag == 1 {
            PrimitiveType::Pred
        } else if tag == 2 {
            PrimitiveType::S8
        } else if tag == 3 {
            PrimitiveType::S16
        } else if tag == 4 {
            PrimitiveType::S32
        } else if tag == 5 {
            PrimitiveType::S64
        } else if tag == 6 {
            PrimitiveType::U8
        } else if tag == 7 {
            PrimitiveType::U16
        } else if tag == 8 {
            PrimitiveType::U32
        } else if tag == 9 {
            PrimitiveType::U64
        } else if tag == 10 {
            PrimitiveType::F16
        } else if tag == 11 {
            PrimitiveType::F32
        } else if tag == 12 {
            PrimitiveType::F64
        } else if tag == 13 {
            PrimitiveType::Tuple
        } else if tag == 14 {
            PrimitiveType::OpaqueType
        } else if tag == 15 {
            PrimitiveType::C64
        } else if tag == 16 {
            PrimitiveType::Bf16
        } else if tag == 17 {
            PrimitiveType::Token
        } else {
            PrimitiveType::C128
        };
        assert(t.spec_discriminant() == tag);
    }
}

/// A tag's number, read back, gives the tag again.
pub proof fn lemma_discriminant_round_trip(t: PrimitiveType)
    ensures
        0 <= t.spec_discriminant() <= 18,
        PrimitiveType::spec_from_discriminant(t.spec_discriminant()) == Some(t),
{
    let tag = t.spec_discriminant();
    let chosen = choose|c: PrimitiveType| c.spec_discriminant() == tag;
    lemma_discriminant_injective(chosen, t);
}

/// A tag that names a kind of array element has an element type, and the tag
/// of that element type is the tag again.
pub proof fn lemma_primitive_type_round_trip(t: PrimitiveType)
    requires
        t.is_element_type(),
    ensures
        t.spec_element_type() is Ok,
        t.spec_element_type().unwrap().spec_primitive_type() == t,
{
    match t {
        PrimitiveType::Pred => assert(t.has_element_type(ElementType::Pred)),
        PrimitiveType::S8 => assert(t.has_element_type(ElementType::S8)),
        PrimitiveType::S16 => assert(t.has_element_type(ElementType::S16)),
        PrimitiveType::S32 => assert(t.has_element_type(ElementType::S32)),
        PrimitiveType::S64 => assert(t.has_element_type(ElementType::S64)),
        PrimitiveType::U8 => assert(t.has_element_type(ElementType::U8)),
        PrimitiveType::U16 => assert(t.has_element_type(ElementType::U16)),
        PrimitiveType::U32 => assert(t.has_element_type(ElementType::U32)),
        PrimitiveType::U64 => assert(t.has_element_type(ElementType::U64)),
        PrimitiveType::F16 => assert(t.has_element_type(ElementType::F16)),
        PrimitiveType::F32 => assert(t.has_element_type(ElementType::F32)),
        PrimitiveType::Bf16 => assert(t.has_element_type(ElementType::Bf16)),
        PrimitiveType::F64 => assert(t.has_element_type(ElementType::F64)),
        PrimitiveType::C64 => assert(t.has_element_type(ElementType::C64)),
        PrimitiveType::C128 => assert(t.has_element_type(ElementType::C128)),
        _ => {},
    }
}

/// `Invalid`, `Tuple`, `OpaqueType` and `Token` have no element type: reading
/// one as array data fails with `NotAnElementType`, which holds the tag.
pub proof fn lemma_not_an_element_type(t: PrimitiveType)
    requires
        !t.is_element_type(),
    ensures
        t.spec_element_type() == Err::<ElementType, Error>(Error::NotAnElementType { got: t }),
{
    assert forall|e: ElementType| !t.has_element_type(e) by {}
}

} // verus!
