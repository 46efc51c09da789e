//! A three-component vector of IEEE 754 binary64 numbers, held by their
//! encodings.
//!
//! Every component is a `u64` that carries the sixty-four bits of a binary64
//! value. The operations of this crate are those that are exact on the
//! encoding: building a vector, reading a component by name or by position,
//! flipping signs, telling a zero divisor from any other, and laying the
//! written components out as text. Arithmetic that rounds is left to the
//! caller, who decodes the components, computes, and encodes the result
//! again.

pub mod binary64;
pub mod error;
pub mod text;
pub mod vector;

pub use binary64::check_divisor;
pub use error::Vec3Error;
pub use text::join_components;
pub use vector::{check_index, Point3, Vec3, DIMENSION};
