//! The four operations of the calculator.
//!
//! Addition, subtraction and multiplication wrap around on overflow. Division
//! truncates toward zero and reports a zero divisor as an error; its single
//! overflowing case, `i32::MIN / -1`, wraps around like the other operations.

use crate::arith::{lemma_trunc_div_as_euclidean, lemma_trunc_div_fits, trunc_div, wrap};
use crate::error::CalcError;
use vstd::arithmetic::mul::lemma_mul_is_commutative;
use vstd::prelude::*;

verus! {

/// What `add` returns: the sum, wrapped into `i32`.
pub open spec fn spec_add(a: i32, b: i32) -> i32 {
    wrap(a + b)
}

/// What `subtract` returns: the difference, wrapped into `i32`.
pub open spec fn spec_subtract(a: i32, b: i32) -> i32 {
    wrap(a - b)
}

/// What `multiply` returns: the product, wrapped into `i32`.
pub open spec fn spec_multiply(a: i32, b: i32) -> i32 {
    wrap(a * b)
}

/// What `divide` returns: an error for a zero divisor, and otherwise the
/// quotient truncated toward zero, wrapped into `i32`.
pub open spec fn spec_divide(a: i32, b: i32) -> Result<i32, CalcError> {
    if b == 0 {
        Err(CalcError::DivisionByZero)
    } else {
        Ok(wrap(trunc_div(a as int, b as int)))
    }
}

/// Adds `b` to `a`, wrapping around on overflow.
#[verifier::when_used_as_spec(spec_add)]
pub fn add(a: i32, b: i32) -> (sum: i32)
    ensures
        sum == wrap(a + b),
        i32::MIN <= a + b <= i32::MAX ==> sum == a + b,
{
    a.wrapping_add(b)
}

/// Takes `b` away from `a`, wrapping around on overflow.
#[verifier::when_used_as_spec(spec_subtract)]
pub fn subtract(a: i32, b: i32) -> (difference: i32)
    ensures
        difference == wrap(a - b),
        i32::MIN <= a - b <= i32::MAX ==> difference == a - b,
{
    a.wrapping_sub(b)
}

/// Multiplies `a` by `b`, wrapping around on overflow.
#[verifier::when_used_as_spec(spec_multiply)]
pub fn multiply(a: i32, b: i32) -> (product: i32)
    ensures
        product == wrap(a * b),
        i32::MIN <= a * b <= i32::MAX ==> product == a * b,
{
    a.wrapping_mul(b)
}

/// Divides `a` by `b`, truncating toward zero.
///
/// A zero divisor is the only error. The one quotient that does not fit,
/// `i32::MIN / -1`, wraps around to `i32::MIN`.
#[verifier::when_used_as_spec(spec_divide)]
pub fn divide(a: i32, b: i32) -> (outcome: Result<i32, CalcError>)
    ensures
        outcome == spec_divide(a, b),
        b == 0 ==> outcome == Err::<i32, CalcError>(CalcError::DivisionByZero),
        b != 0 ==> outcome is Ok,
        b != 0 && !(a == i32::MIN && b == -1) ==> outcome->Ok_0 == trunc_div(a as int, b as int),
        a == i32::MIN && b == -1 ==> outcome == Ok::<i32, CalcError>(i32::MIN),
{
    if b == 0 {
        Err(CalcError::DivisionByZero)
    } else {
        proof {
            lemma_trunc_div_as_euclidean(a as int, b as int);
            lemma_trunc_div_fits(a, b);
        }
        if b == -1 {
            Ok(0i32.wrapping_sub(a))
        } else {
            Ok(a / b)
        }
    }
}

/// Addition is commutative: the order of the operands does not matter.
pub proof fn lemma_add_commutative(a: i32, b: i32)
    ensures
        self::add(a, b) == self::add(b, a),
{
}

/// Subtracting a number from itself gives zero.
pub proof fn lemma_subtract_self(a: i32)
    ensures
        self::subtract(a, a) == 0,
{
}

/// Multiplication is commutative: the order of the operands does not matter.
pub proof fn lemma_multiply_commutative(a: i32, b: i32)
    ensures
        self::multiply(a, b) == self::multiply(b, a),
{
    lemma_mul_is_commutative(a as int, b as int);
}

/// Division by a nonzero divisor succeeds, and its result is the quotient
/// truncated toward zero wherever that quotient fits in an `i32`, which is
/// everywhere but at `i32::MIN / -1`.
pub proof fn lemma_divide_by_nonzero(a: i32, b: i32)
    requires
        b != 0,
    ensures
        self::divide(a, b) is Ok,
        !(a == i32::MIN && b == -1) ==> self::divide(a, b)->Ok_0 == trunc_div(a as int, b as int),
{
    lemma_trunc_div_fits(a, b);
}

/// Division by zero fails with `DivisionByZero`, whatever the dividend.
pub proof fn lemma_divide_by_zero(a: i32)
    ensures
        self::divide(a, 0) == Err::<i32, CalcError>(CalcError::DivisionByZero),
{
}

} // verus!
