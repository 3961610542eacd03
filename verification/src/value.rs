//! What the evaluator decides about values without the host: truthiness,
//! equality, and the order, the sign and the zero of numbers, which it
//! reads off the bit patterns of IEEE-754 doubles.

use crate::ast::{LiteralExpr, LiteralView};
use vstd::prelude::*;

verus! {

pub const SIGN_BIT: u64 = 0x8000_0000_0000_0000;

pub const MAGNITUDE_BITS: u64 = 0x7fff_ffff_ffff_ffff;

pub const EXPONENT_BITS: u64 = 0x7ff0_0000_0000_0000;

pub const FRACTION_BITS: u64 = 0x000f_ffff_ffff_ffff;

/// Every value but `nil` and `false` is truthy.
pub open spec fn truthy(v: LiteralView) -> bool {
    match v {
        LiteralView::Nil => false,
        LiteralView::Boolean(b) => b,
        _ => true,
    }
}

/// The pattern is that of a NaN: all exponent bits set and a fraction that
/// is not zero.
pub open spec fn is_nan(bits: u64) -> bool {
    (bits & EXPONENT_BITS) == EXPONENT_BITS && (bits & FRACTION_BITS) != 0
}

/// The pattern is that of a zero, positive or negative.
pub open spec fn is_zero(bits: u64) -> bool {
    (bits & MAGNITUDE_BITS) == 0
}

/// The pattern has its sign bit set.
pub open spec fn is_negative(bits: u64) -> bool {
    (bits & SIGN_BIT) != 0
}

/// The place of a pattern that is no NaN in the order of the doubles: its
/// magnitude, negated where the sign bit is set. Both zeros have place 0.
pub open spec fn place(bits: u64) -> int {
    if is_negative(bits) {
        -((bits & MAGNITUDE_BITS) as int)
    } else {
        (bits & MAGNITUDE_BITS) as int
    }
}

/// IEEE equality: no NaN equals anything, and the two zeros are equal.
pub open spec fn number_equal(a: u64, b: u64) -> bool {
    !is_nan(a) && !is_nan(b) && place(a) == place(b)
}

/// IEEE `<`: false where either side is a NaN.
pub open spec fn number_less(a: u64, b: u64) -> bool {
    !is_nan(a) && !is_nan(b) && place(a) < place(b)
}

/// IEEE `<=`: false where either side is a NaN.
pub open spec fn number_less_equal(a: u64, b: u64) -> bool {
    !is_nan(a) && !is_nan(b) && place(a) <= place(b)
}

/// The pattern of the negated double: the sign bit flipped.
pub open spec fn negated(bits: u64) -> u64 {
    bits ^ SIGN_BIT
}

/// Equality of values: `nil` equals `nil` alone, booleans and strings are
/// equal by content, numbers by IEEE equality, callables and instances by
/// identity, and values of different kinds are never equal.
pub open spec fn values_equal(a: LiteralView, b: LiteralView) -> bool {
    match (a, b) {
        (LiteralView::Nil, LiteralView::Nil) => true,
        (LiteralView::Boolean(x), LiteralView::Boolean(y)) => x == y,
        (LiteralView::Number(x), LiteralView::Number(y)) => number_equal(x, y),
        (LiteralView::String(x), LiteralView::String(y)) => x == y,
        (LiteralView::Call(x), LiteralView::Call(y)) => x == y,
        (LiteralView::Instance(x), LiteralView::Instance(y)) => x == y,
        _ => false,
    }
}

/// Whether `and` or `or` is decided by its left operand alone: `or` by a
/// truthy one, `and` by one that is not.
pub open spec fn short_circuits(is_or: bool, left: LiteralView) -> bool {
    truthy(left) == is_or
}

pub fn is_nan_bits(bits: u64) -> (r: bool)
    ensures
        r == is_nan(bits),
{
    (bits & EXPONENT_BITS) == EXPONENT_BITS && (bits & FRACTION_BITS) != 0
}

pub fn is_zero_bits(bits: u64) -> (r: bool)
    ensures
        r == is_zero(bits),
{
    (bits & MAGNITUDE_BITS) == 0
}

/// The place of `bits` in the order of the doubles.
fn place_of(bits: u64) -> (p: i128)
    ensures
        p == place(bits),
{
    let magnitude = bits & MAGNITUDE_BITS;
    assert(magnitude <= MAGNITUDE_BITS) by (bit_vector)
        requires
            magnitude == bits & MAGNITUDE_BITS,
    ;
    if (bits & SIGN_BIT) != 0 {
        -(magnitude as i128)
    } else {
        magnitude as i128
    }
}

pub fn numbers_equal(a: u64, b: u64) -> (r: bool)
    ensures
        r == number_equal(a, b),
{
    !is_nan_bits(a) && !is_nan_bits(b) && place_of(a) == place_of(b)
}

pub fn number_is_less(a: u64, b: u64) -> (r: bool)
    ensures
        r == number_less(a, b),
{
    !is_nan_bits(a) && !is_nan_bits(b) && place_of(a) < place_of(b)
}

pub fn number_is_less_equal(a: u64, b: u64) -> (r: bool)
    ensures
        r == number_less_equal(a, b),
{
    !is_nan_bits(a) && !is_nan_bits(b) && place_of(a) <= place_of(b)
}

pub fn negate(bits: u64) -> (r: u64)
    ensures
        r == negated(bits),
{
    bits ^ SIGN_BIT
}

/// Whether `v` counts as true.
pub fn is_truthy(v: &LiteralExpr) -> (r: bool)
    ensures
        r == truthy(v@),
{
    match v {
        LiteralExpr::Nil => false,
        LiteralExpr::Boolean(b) => *b,
        _ => true,
    }
}

/// Whether `a` and `b` are equal values.
pub fn is_equal(a: &LiteralExpr, b: &LiteralExpr) -> (r: bool)
    ensures
        r == values_equal(a@, b@),
{
    match (a, b) {
        (LiteralExpr::Nil, LiteralExpr::Nil) => true,
        (LiteralExpr::Boolean(x), LiteralExpr::Boolean(y)) => *x == *y,
        (LiteralExpr::Number(x), LiteralExpr::Number(y)) => numbers_equal(*x, *y),
        (LiteralExpr::String(x), LiteralExpr::String(y)) => *x == *y,
        (LiteralExpr::Call(x), LiteralExpr::Call(y)) => *x == *y,
        (LiteralExpr::Instance(x), LiteralExpr::Instance(y)) => *x == *y,
        _ => false,
    }
}

/// `is_truthy(nil)` and `is_truthy(false)` are false, and every other
/// value is truthy.
pub proof fn law_truthiness(v: LiteralView)
    ensures
        truthy(LiteralView::Nil) == false,
        truthy(LiteralView::Boolean(false)) == false,
        v != LiteralView::Nil && v != LiteralView::Boolean(false) ==> truthy(v),
{
}

} // verus!
