//! Host scalar types and the element types they are bound to.

use crate::element_type::ElementType;
use vstd::prelude::*;

verus! {

/// A host scalar type whose values an array of the runtime can hold.
///
/// The binding is fixed when the program is built: a host type has one
/// element type, and with it one size. An implementation must show that the
/// size it states is the size of its element type, and the size that a value
/// of the host type takes in memory, so that a buffer of host values has the
/// layout that the runtime expects for the element type.
pub trait ArrayElement: Copy {
    /// The element type that the host type is bound to.
    const TY: ElementType;

    /// The number of bytes of one value.
    const ELEMENT_SIZE_IN_BYTES: usize;

    /// The zero of the host type, with which a buffer is filled by default.
    const ZERO: Self;

    /// The stated size is that of the element type and that of a host value.
    /// An implementation adds what its three constants are.
    proof fn lemma_binding()
        ensures
            Self::ELEMENT_SIZE_IN_BYTES == Self::TY.spec_element_size_in_bytes(),
            Self::ELEMENT_SIZE_IN_BYTES == vstd::layout::size_of::<Self>(),
    ;
}

/// `bool` holds a predicate: one byte, `false` for zero.
impl ArrayElement for bool {
    const TY: ElementType = ElementType::Pred;

    const ELEMENT_SIZE_IN_BYTES: usize = 1;

    const ZERO: Self = false;

    proof fn lemma_binding()
        ensures
            Self::TY == ElementType::Pred,
            Self::ELEMENT_SIZE_IN_BYTES == 1,
            !Self::ZERO,
    {
        broadcast use vstd::layout::layout_of_primitives;

    }
}

/// `i8` holds a signed integer of one byte.
impl ArrayElement for i8 {
    const TY: ElementType = ElementType::S8;

    const ELEMENT_SIZE_IN_BYTES: usize = 1;

    const ZERO: Self = 0;

    proof fn lemma_binding()
        ensures
            Self::TY == ElementType::S8,
            Self::ELEMENT_SIZE_IN_BYTES == 1,
            Self::ZERO == 0,
    {
        broadcast use vstd::layout::layout_of_primitives;

    }
}

/// `i16` holds a signed integer of two bytes.
impl ArrayElement for i16 {
    const TY: ElementType = ElementType::S16;

    const ELEMENT_SIZE_IN_BYTES: usize = 2;

    const ZERO: Self = 0;

    proof fn lemma_binding()
        ensures
            Self::TY == ElementType::S16,
            Self::ELEMENT_SIZE_IN_BYTES == 2,
            Self::ZERO == 0,
    {
        broadcast use vstd::layout::layout_of_primitives;

    }
}

/// `i32` holds a signed integer of four bytes.
impl ArrayElement for i32 {
    const TY: ElementType = ElementType::S32;

    const ELEMENT_SIZE_IN_BYTES: usize = 4;

    const ZERO: Self = 0;

    proof fn lemma_binding()
        ensures
            Self::TY == ElementType::S32,
            Self::ELEMENT_SIZE_IN_BYTES == 4,
            Self::ZERO == 0,
    {
        broadcast use vstd::layout::layout_of_primitives;

    }
}

/// `i64` holds a signed integer of eight bytes.
impl ArrayElement for i64 {
    const TY: ElementType = ElementType::S64;

    const ELEMENT_SIZE_IN_BYTES: usize = 8;

    const ZERO: Self = 0;

    proof fn lemma_binding()
        ensures
            Self::TY == ElementType::S64,
            Self::ELEMENT_SIZE_IN_BYTES == 8,
            Self::ZERO == 0,
    {
        broadcast use vstd::layout::layout_of_primitives;

    }
}

/// `u8` holds an unsigned integer of one byte.
impl ArrayElement for u8 {
    const TY: ElementType = ElementType::U8;

    const ELEMENT_SIZE_IN_BYTES: usize = 1;

    const ZERO: Self = 0;

    proof fn lemma_binding()
        ensures
            Self::TY == ElementType::U8,
            Self::ELEMENT_SIZE_IN_BYTES == 1,
            Self::ZERO == 0,
    {
        broadcast use vstd::layout::layout_of_primitives;

    }
}

/// `u16` holds an unsigned integer of two bytes.
impl ArrayElement for u16 {
    const TY: ElementType = ElementType::U16;

    const ELEMENT_SIZE_IN_BYTES: usize = 2;

    const ZERO: Self = 0;

    proof fn lemma_binding()
        ensures
            Self::TY == ElementType::U16,
            Self::ELEMENT_SIZE_IN_BYTES == 2,
            Self::ZERO == 0,
    {
        broadcast use vstd::layout::layout_of_primitives;

    }
}

/// `u32` holds an unsigned integer of four bytes.
impl ArrayElement for u32 {
    const TY: ElementType = ElementType::U32;

    const ELEMENT_SIZE_IN_BYTES: usize = 4;

    const ZERO: Self = 0;

    proof fn lemma_binding()
        ensures
            Self::TY == ElementType::U32,
            Self::ELEMENT_SIZE_IN_BYTES == 4,
            Self::ZERO == 0,
    {
        broadcast use vstd::layout::layout_of_primitives;

    }
}

/// `u64` holds an unsigned integer of eight bytes.
impl ArrayElement for u64 {
    const TY: ElementType = ElementType::U64;

    const ELEMENT_SIZE_IN_BYTES: usize = 8;

    const ZERO: Self = 0;

    proof fn lemma_binding()
        ensures
            Self::TY == ElementType::U64,
            Self::ELEMENT_SIZE_IN_BYTES == 8,
            Self::ZERO == 0,
    {
        broadcast use vstd::layout::layout_of_primitives;

    }
}

} // verus!
