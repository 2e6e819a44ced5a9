//! Element kinds of the XLA runtime and the host types bound to them.
//!
//! The runtime names every kind of value by a numbered tag, [`PrimitiveType`].
//! Only some of those tags can back array storage; these are the
//! [`ElementType`]s, each with a fixed size in bytes. [`ArrayElement`] binds a
//! host scalar type to its element type.

pub mod array_element;
pub mod c_string;
pub mod element_type;
pub mod error;
pub mod primitive_type;

pub use array_element::ArrayElement;
pub use c_string::c_str_to_string;
pub use element_type::ElementType;
pub use error::Error;
pub use primitive_type::PrimitiveType;
