//! The two ways in which an operation on a vector can be refused.

use vstd::prelude::*;

verus! {

/// Why an operation on a vector was refused.
#[derive(Clone, Copy, Debug, PartialEq, Eq, Structural)]
pub enum Vec3Error {
    /// An in-place division was asked for with a divisor that is exactly zero.
    DivideByZero,
    /// A component was asked for at a position other than 0, 1 or 2.
    IndexOutOfRange,
}

} // verus!
