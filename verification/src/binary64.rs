//! Facts about the IEEE 754 binary64 encoding that hold bit for bit.
//!
//! A binary64 value is sixty-four bits: the sign in bit 63, the biased
//! exponent in bits 52 to 62, and the fraction in bits 0 to 51. Negation
//! changes the sign bit and nothing else, and a value compares equal to zero
//! exactly when it is one of the two zeros, `+0.0` and `-0.0`.

use vstd::prelude::*;

use crate::error::Vec3Error;

verus! {

/// The encoding of `+0.0`: all bits clear.
pub const POSITIVE_ZERO: u64 = 0;

/// The encoding of `-0.0`: the sign bit alone.
pub const NEGATIVE_ZERO: u64 = 0x8000_0000_0000_0000;

/// The sign bit of an encoding.
pub const SIGN_MASK: u64 = 0x8000_0000_0000_0000;

/// The encoding of the negated value: the same bits with the sign flipped.
pub open spec fn negated(bits: u64) -> u64 {
    bits ^ SIGN_MASK
}

/// Whether the encoded value compares equal to zero, which both `+0.0` and
/// `-0.0` do and no other value does.
pub open spec fn encodes_zero(bits: u64) -> bool {
    bits == POSITIVE_ZERO || bits == NEGATIVE_ZERO
}

/// Negates an encoded value by flipping its sign bit.
pub fn negate(bits: u64) -> (r: u64)
    ensures
        r == negated(bits),
{
    bits ^ SIGN_MASK
}

/// Tells whether an encoded value compares equal to zero.
pub fn is_zero(bits: u64) -> (r: bool)
    ensures
        r == encodes_zero(bits),
{
    bits == POSITIVE_ZERO || bits == NEGATIVE_ZERO
}

/// Admits a divisor for in-place division unless it is exactly zero.
///
/// A divisor of either zero is refused with `DivideByZero`. Every other
/// encoding is handed back unchanged, however small the value it stands
/// for, and so are the infinities and the NaNs.
pub fn check_divisor(divisor: u64) -> (r: Result<u64, Vec3Error>)
    ensures
        encodes_zero(divisor) ==> r == Err::<u64, Vec3Error>(Vec3Error::DivideByZero),
        !encodes_zero(divisor) ==> r == Ok::<u64, Vec3Error>(divisor),
{
    if is_zero(divisor) {
        Err(Vec3Error::DivideByZero)
    } else {
        Ok(divisor)
    }
}

/// Negating twice gives back the encoding one started from.
pub proof fn lemma_negate_twice(bits: u64)
    ensures
        negated(negated(bits)) == bits,
{
    assert((bits ^ 0x8000_0000_0000_0000u64) ^ 0x8000_0000_0000_0000u64 == bits) by (bit_vector);
}

/// A value is zero exactly when its negation is: a divisor and its
/// negation are admitted together or refused together.
pub proof fn lemma_negate_keeps_zero(bits: u64)
    ensures
        encodes_zero(negated(bits)) == encodes_zero(bits),
{
    assert(((bits ^ 0x8000_0000_0000_0000u64) == 0 || (bits ^ 0x8000_0000_0000_0000u64)
        == 0x8000_0000_0000_0000u64) == (bits == 0 || bits == 0x8000_0000_0000_0000u64))
        by (bit_vector);
}

} // verus!
