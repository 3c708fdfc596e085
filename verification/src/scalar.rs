//! The scalar layer: IEEE-754 binary64 numbers, carried as their `u64` bit
//! patterns.  Sign, zero, NaN and equality tests are plain bit arithmetic and
//! are defined here directly; rounded addition, multiplication and square
//! root are performed by an outside soft-float crate behind trusted wrappers.

use vstd::prelude::*;
use const_soft_float::soft_f64::SoftF64;

verus! {

/// The sign bit of a binary64 bit pattern.
pub const SIGN_MASK: u64 = 0x8000_0000_0000_0000;

/// The exponent and significand bits: the number's magnitude.
pub const ABS_MASK: u64 = 0x7fff_ffff_ffff_ffff;

/// The magnitude of an infinity; any larger magnitude is a NaN.
pub const INF_MAGNITUDE: u64 = 0x7ff0_0000_0000_0000;

/// The magnitude bits of `a`, its sign dropped.
pub open spec fn magnitude(a: u64) -> u64 {
    a & ABS_MASK
}

/// Whether `a` is a NaN of either sign, quiet or signalling.
pub open spec fn is_nan(a: u64) -> bool {
    magnitude(a) > INF_MAGNITUDE
}

/// Whether `a` is a zero of either sign.
pub open spec fn is_zero(a: u64) -> bool {
    magnitude(a) == 0
}

/// IEEE-754 equality on bit patterns: the same pattern, or two zeroes of
/// either sign; never true of a NaN.
pub open spec fn float_eq(a: u64, b: u64) -> bool {
    &&& !is_nan(a)
    &&& !is_nan(b)
    &&& (a == b || (is_zero(a) && is_zero(b)))
}

/// IEEE-754 negation: the sign bit flipped, every other bit kept.
pub open spec fn negate(a: u64) -> u64 {
    a ^ SIGN_MASK
}

/// The bit pattern of the binary64 sum of `a` and `b`, rounded to nearest,
/// ties to even.
pub uninterp spec fn add_bits(a: u64, b: u64) -> u64;

/// The bit pattern of the binary64 product of `a` and `b`, rounded to
/// nearest, ties to even.
pub uninterp spec fn mul_bits(a: u64, b: u64) -> u64;

/// The bit pattern of the binary64 square root of `a`, rounded to nearest,
/// ties to even.
pub uninterp spec fn sqrt_bits(a: u64) -> u64;

/// The binary64 difference, as IEEE-754 defines it: the sum with the
/// negated subtrahend.
pub open spec fn sub_bits(a: u64, b: u64) -> u64 {
    add_bits(a, negate(b))
}

/// Relies on `const_soft_float::soft_f64::SoftF64::add`: binary64 addition
/// of the two bit patterns, rounded to nearest, ties to even.  Its source
/// further shows that a NaN operand gives a NaN sum; that on non-NaN
/// operands the sum does not depend on the operand order; that adding a zero
/// to a non-NaN number gives that number back, up to the sign of a zero sum;
/// and that negating both non-NaN operands negates a non-NaN sum, again up
/// to the sign of a zero sum.
#[verifier::external_body]
pub(crate) fn raw_add(a: u64, b: u64) -> (r: u64)
    ensures
        r == add_bits(a, b),
        is_nan(a) || is_nan(b) ==> is_nan(r),
        !is_nan(a) && !is_nan(b) ==> r == add_bits(b, a),
        !is_nan(a) && is_zero(b) ==> float_eq(r, a),
        !is_nan(a) && !is_nan(b) && !is_nan(r) ==> float_eq(
            negate(r),
            add_bits(negate(b), negate(a)),
        ),
{
    SoftF64::from_bits(a).add(SoftF64::from_bits(b)).to_bits()
}

/// Relies on `const_soft_float::soft_f64::SoftF64::mul`: binary64
/// multiplication of the two bit patterns, rounded to nearest, ties to even.
/// Its source further shows that a NaN operand gives a NaN product, and that
/// on non-NaN operands the product does not depend on the operand order.
#[verifier::external_body]
pub(crate) fn raw_mul(a: u64, b: u64) -> (r: u64)
    ensures
        r == mul_bits(a, b),
        is_nan(a) || is_nan(b) ==> is_nan(r),
        !is_nan(a) && !is_nan(b) ==> r == mul_bits(b, a),
{
    SoftF64::from_bits(a).mul(SoftF64::from_bits(b)).to_bits()
}

/// Relies on `const_soft_float::soft_f64::SoftF64::sqrt`: the correctly
/// rounded binary64 square root of the bit pattern.
#[verifier::external_body]
pub(crate) fn raw_sqrt(a: u64) -> (r: u64)
    ensures
        r == sqrt_bits(a),
{
    SoftF64::from_bits(a).sqrt().to_bits()
}

/// Negates a binary64 bit pattern.
pub fn negate_val(a: u64) -> (r: u64)
    ensures
        r == negate(a),
{
    a ^ SIGN_MASK
}

/// Decides IEEE-754 equality of two binary64 bit patterns.
pub fn eq_val(a: u64, b: u64) -> (r: bool)
    ensures
        r == float_eq(a, b),
{
    let ma: u64 = a & ABS_MASK;
    let mb: u64 = b & ABS_MASK;
    ma <= INF_MAGNITUDE && mb <= INF_MAGNITUDE && (a == b || (ma == 0 && mb == 0))
}

/// Negation keeps the magnitude and is an involution.
pub proof fn lemma_negate_magnitude(a: u64)
    ensures
        magnitude(negate(a)) == magnitude(a),
        negate(negate(a)) == a,
{
    assert((a ^ SIGN_MASK) & ABS_MASK == a & ABS_MASK) by (bit_vector);
    assert((a ^ SIGN_MASK) ^ SIGN_MASK == a) by (bit_vector);
}

/// `float_eq` moves across negation: a number equal to the negation of
/// another is the negation of a number equal to it.
pub proof fn lemma_float_eq_negate(a: u64, b: u64)
    requires
        float_eq(negate(a), b),
    ensures
        float_eq(a, negate(b)),
{
    lemma_negate_magnitude(a);
    lemma_negate_magnitude(b);
}

/// The difference of two products, `a * b - c * d`, with the anti-symmetry
/// that IEEE-754 gives it: when nothing is a NaN, swapping the two products
/// negates the result.
pub(crate) fn mul_mul_sub(a: u64, b: u64, c: u64, d: u64) -> (r: u64)
    ensures
        r == sub_bits(mul_bits(a, b), mul_bits(c, d)),
        !is_nan(a) && !is_nan(b) && !is_nan(c) && !is_nan(d) && !is_nan(r) ==> float_eq(
            r,
            negate(sub_bits(mul_bits(d, c), mul_bits(b, a))),
        ),
{
    let p = raw_mul(a, b);
    let q = raw_mul(c, d);
    let nq = negate_val(q);
    let r = raw_add(p, nq);
    proof {
        lemma_negate_magnitude(q);
        if !is_nan(a) && !is_nan(b) && !is_nan(c) && !is_nan(d) && !is_nan(r) {
            // A NaN operand would have made the sum a NaN.
            assert(!is_nan(p) && !is_nan(nq));
            // Swapped factors give the same products.
            assert(p == mul_bits(b, a));
            assert(q == mul_bits(d, c));
            // Negating both operands of the sum negates it, float-wise.
            assert(float_eq(negate(r), add_bits(q, negate(p))));
            lemma_float_eq_negate(r, add_bits(q, negate(p)));
            assert(float_eq(r, negate(sub_bits(mul_bits(d, c), mul_bits(b, a)))));
        }
    }
    r
}

} // verus!
