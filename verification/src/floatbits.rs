//! IEEE-754 binary64 values carried as their bit patterns (`f64::to_bits`).
//!
//! The library never computes with floating point. Where a record holds a
//! dollar amount or a score, it keeps the number's bits, and the checks the
//! runtime makes on such numbers (finite, negative, ordered) are stated and
//! decided on the bits.

use vstd::prelude::*;

verus! {

/// The 11 exponent bits.
pub open spec fn exponent(bits: u64) -> u64 {
    (bits >> 52u64) & 0x7ffu64
}

/// The 52 fraction bits.
pub open spec fn fraction(bits: u64) -> u64 {
    bits & 0xf_ffff_ffff_ffffu64
}

/// The sign bit is set.
pub open spec fn sign_set(bits: u64) -> bool {
    (bits >> 63u64) == 1u64
}

/// Everything but the sign bit.
pub open spec fn magnitude(bits: u64) -> u64 {
    bits & 0x7fff_ffff_ffff_ffffu64
}

/// `f64::is_finite`: the exponent is not all ones.
pub open spec fn is_finite(bits: u64) -> bool {
    exponent(bits) != 0x7ffu64
}

/// `f64::is_nan`: all-ones exponent with a non-zero fraction.
pub open spec fn is_nan(bits: u64) -> bool {
    exponent(bits) == 0x7ffu64 && fraction(bits) != 0
}

/// The position of a non-NaN value on the real line: magnitudes grow
/// with their bit patterns, negatives mirror positives, and both zeros
/// share position 0.
pub open spec fn order_key(bits: u64) -> int {
    if sign_set(bits) {
        -(magnitude(bits) as int)
    } else {
        magnitude(bits) as int
    }
}

/// `a < b` on the two values (false when either is NaN).
pub open spec fn lt(a: u64, b: u64) -> bool {
    !is_nan(a) && !is_nan(b) && order_key(a) < order_key(b)
}

/// `a <= b` on the two values (false when either is NaN).
pub open spec fn le(a: u64, b: u64) -> bool {
    !is_nan(a) && !is_nan(b) && order_key(a) <= order_key(b)
}

/// `a == b` on the two values (false when either is NaN, true for +0 == -0).
pub open spec fn feq(a: u64, b: u64) -> bool {
    !is_nan(a) && !is_nan(b) && order_key(a) == order_key(b)
}

/// The bits of `0.0`.
pub open spec fn zero() -> u64 {
    0u64
}

/// `x < 0.0`.
pub open spec fn is_negative(bits: u64) -> bool {
    lt(bits, zero())
}

/// `f64::abs`: the sign bit cleared.
pub open spec fn abs(bits: u64) -> u64 {
    magnitude(bits)
}

pub fn bits_is_finite(bits: u64) -> (r: bool)
    ensures
        r == is_finite(bits),
{
    ((bits >> 52u64) & 0x7ffu64) != 0x7ffu64
}

pub fn bits_is_nan(bits: u64) -> (r: bool)
    ensures
        r == is_nan(bits),
{
    ((bits >> 52u64) & 0x7ffu64) == 0x7ffu64 && (bits & 0xf_ffff_ffff_ffffu64) != 0
}

fn key_parts(bits: u64) -> (r: (bool, u64))
    ensures
        r.0 == sign_set(bits),
        r.1 == magnitude(bits),
{
    ((bits >> 63u64) == 1u64, bits & 0x7fff_ffff_ffff_ffffu64)
}

/// `a < b` on two values given by their bits.
pub fn bits_lt(a: u64, b: u64) -> (r: bool)
    ensures
        r == lt(a, b),
{
    if bits_is_nan(a) || bits_is_nan(b) {
        return false;
    }
    let (sa, ma) = key_parts(a);
    let (sb, mb) = key_parts(b);
    if sa && sb {
        ma > mb
    } else if sa && !sb {
        ma != 0 || mb != 0
    } else if !sa && sb {
        false
    } else {
        ma < mb
    }
}

/// `a == b` on two values given by their bits.
pub fn bits_eq(a: u64, b: u64) -> (r: bool)
    ensures
        r == feq(a, b),
{
    if bits_is_nan(a) || bits_is_nan(b) {
        return false;
    }
    let (sa, ma) = key_parts(a);
    let (sb, mb) = key_parts(b);
    if sa == sb {
        ma == mb
    } else {
        ma == 0 && mb == 0
    }
}

/// `a <= b` on two values given by their bits.
pub fn bits_le(a: u64, b: u64) -> (r: bool)
    ensures
        r == le(a, b),
{
    bits_lt(a, b) || bits_eq(a, b)
}

/// `x < 0.0`.
pub fn bits_is_negative(bits: u64) -> (r: bool)
    ensures
        r == is_negative(bits),
{
    proof {
        assert(!is_nan(0u64)) by (bit_vector);
        assert(magnitude(0u64) == 0u64) by (bit_vector);
        assert(!sign_set(0u64)) by (bit_vector);
    }
    bits_lt(bits, 0u64)
}

/// `f64::abs`.
pub fn bits_abs(bits: u64) -> (r: u64)
    ensures
        r == abs(bits),
{
    bits & 0x7fff_ffff_ffff_ffffu64
}

pub proof fn lemma_abs_not_negative(bits: u64)
    ensures
        !sign_set(abs(bits)),
        magnitude(abs(bits)) == magnitude(bits),
        is_nan(abs(bits)) == is_nan(bits),
{
    assert((bits & 0x7fff_ffff_ffff_ffffu64) >> 63u64 == 0u64) by (bit_vector);
    assert((bits & 0x7fff_ffff_ffff_ffffu64) & 0x7fff_ffff_ffff_ffffu64 == bits
        & 0x7fff_ffff_ffff_ffffu64) by (bit_vector);
    assert(((bits & 0x7fff_ffff_ffff_ffffu64) >> 52u64) & 0x7ffu64 == (bits >> 52u64) & 0x7ffu64)
        by (bit_vector);
    assert((bits & 0x7fff_ffff_ffff_ffffu64) & 0xf_ffff_ffff_ffffu64 == bits
        & 0xf_ffff_ffff_ffffu64) by (bit_vector);
}

} // verus!
