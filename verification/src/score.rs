//! Metric scores: double-precision numbers held as their IEEE 754 bit patterns, and the
//! order in which two scores are compared.
use vstd::prelude::*;

verus! {

/// The bit that is set in every negative double-precision number.
pub const SIGN_BIT: u64 = 0x8000_0000_0000_0000;

/// The bit pattern of positive infinity. A larger magnitude is not a number.
pub const INFINITY: u64 = 0x7ff0_0000_0000_0000;

/// The bit pattern without its sign.
pub open spec fn magnitude(bits: u64) -> int {
    if bits < SIGN_BIT {
        bits as int
    } else {
        bits - SIGN_BIT
    }
}

/// The place of a number on the line of all doubles: positive numbers by their bit pattern,
/// negative numbers mirrored, and both zeros at the origin.
pub open spec fn rank(bits: u64) -> int {
    if bits < SIGN_BIT {
        magnitude(bits)
    } else {
        -magnitude(bits)
    }
}

/// The pattern stands for no number.
pub open spec fn is_nan(bits: u64) -> bool {
    magnitude(bits) > INFINITY
}

/// The number `a` is greater than the number `b`. Nothing is greater than what is not a
/// number, nor is that greater than anything.
pub open spec fn exceeds(a: u64, b: u64) -> bool {
    &&& !is_nan(a)
    &&& !is_nan(b)
    &&& rank(a) > rank(b)
}

fn magnitude_of(bits: u64) -> (m: u64)
    ensures
        m == magnitude(bits),
        m < SIGN_BIT,
{
    if bits < SIGN_BIT {
        bits
    } else {
        bits - SIGN_BIT
    }
}

/// Whether the number with the pattern `a` is greater than that with the pattern `b`.
pub fn is_greater(a: u64, b: u64) -> (greater: bool)
    ensures
        greater == exceeds(a, b),
{
    let left: u64 = magnitude_of(a);
    let right: u64 = magnitude_of(b);
    if left > INFINITY || right > INFINITY {
        false
    } else if a < SIGN_BIT {
        if b < SIGN_BIT {
            left > right
        } else {
            left > 0 || right > 0
        }
    } else {
        b >= SIGN_BIT && left < right
    }
}

/// No score exceeds itself.
pub proof fn law_score_irreflexive(a: u64)
    ensures
        !exceeds(a, a),
{
}

/// Of two scores at most one exceeds the other.
pub proof fn law_score_asymmetric(a: u64, b: u64)
    requires
        exceeds(a, b),
    ensures
        !exceeds(b, a),
{
}

/// The order of scores is transitive.
pub proof fn law_score_transitive(a: u64, b: u64, c: u64)
    requires
        exceeds(a, b),
        exceeds(b, c),
    ensures
        exceeds(a, c),
{
}

/// Two numbers of which neither exceeds the other stand at the same place.
pub proof fn law_score_total(a: u64, b: u64)
    requires
        !is_nan(a),
        !is_nan(b),
        !exceeds(a, b),
        !exceeds(b, a),
    ensures
        rank(a) == rank(b),
{
}

/// The order of scores is the numeric order of the doubles, read off their bit patterns. Up to
/// infinity, a non-negative number is the greater the larger its pattern is.
pub proof fn law_positive_scores_by_pattern(a: u64, b: u64)
    requires
        a <= 0x7ff0_0000_0000_0000,
        b <= 0x7ff0_0000_0000_0000,
    ensures
        exceeds(a, b) <==> a > b,
{
}

/// With the sign bit set, down to negative infinity, a number is the greater the smaller its
/// pattern is.
pub proof fn law_negative_scores_by_pattern(a: u64, b: u64)
    requires
        0x8000_0000_0000_0000 <= a <= 0xfff0_0000_0000_0000,
        0x8000_0000_0000_0000 <= b <= 0xfff0_0000_0000_0000,
    ensures
        exceeds(a, b) <==> a < b,
{
}

/// A number without the sign bit exceeds every number with it, but that the two zeros are
/// equal.
pub proof fn law_positive_exceeds_negative(a: u64, b: u64)
    requires
        a <= 0x7ff0_0000_0000_0000,
        0x8000_0000_0000_0000 <= b <= 0xfff0_0000_0000_0000,
    ensures
        exceeds(a, b) <==> !(a == 0 && b == 0x8000_0000_0000_0000),
        !exceeds(b, a),
{
}

/// A pattern beyond either infinity is no number: it exceeds nothing, and nothing exceeds it.
pub proof fn law_no_number_has_no_order(a: u64, b: u64)
    requires
        0x7ff0_0000_0000_0000 < a < 0x8000_0000_0000_0000 || a > 0xfff0_0000_0000_0000,
    ensures
        !exceeds(a, b),
        !exceeds(b, a),
{
}

} // verus!
