//! Fixed-size array types of a statically typed language: an element type
//! and a positive length, nested to any depth.
//!
//! [`ArrayType`] is the type `[element; length]`. Its element is a [`Type`],
//! which may be another array, and its length is a [`PositiveNumber`], so
//! that no array type is empty. Array types are compared and hashed by what
//! they are made of, printed as they are written in source text, and written
//! as plain words from which an equal array type can be read back.

pub mod array;
pub mod decimal;
pub mod encoding;
pub mod hashing;
pub mod positive_number;
pub mod types;

pub use array::{ArrayShape, ArrayType};
pub use positive_number::PositiveNumber;
pub use types::{IntegerType, Type};
