//! The error that this library returns.

use crate::primitive_type::PrimitiveType;
use vstd::prelude::*;

verus! {

/// What can go wrong when a tag of the runtime is read as array data.
#[derive(Clone, Copy, PartialEq, Eq, Debug, Structural)]
pub enum Error {
    /// The tag `got` names no kind of array element.
    NotAnElementType { got: PrimitiveType },
}

} // verus!
