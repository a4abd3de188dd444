//! Fixed-point arithmetic on I80F48 values, held as their raw `i128` bits.
//!
//! A value `v` stands for the rational `v / 2^48`.
use fixed::types::I80F48;
use vstd::prelude::*;

verus! {

/// The number of raw units in one whole unit (2^48).
pub open spec fn one() -> int {
    0x1_0000_0000_0000
}

pub open spec fn in_i128(x: int) -> bool {
    i128::MIN <= x <= i128::MAX
}

pub open spec fn in_i64(x: int) -> bool {
    i64::MIN <= x <= i64::MAX
}

/// The integer part of a fixed-point value, truncated toward zero.
pub open spec fn trunc(bits: int) -> int {
    if bits >= 0 {
        bits / one()
    } else {
        -((-bits) / one())
    }
}

/// The raw bits of the product of two fixed-point values, rounded down.
pub open spec fn product(a: int, b: int) -> int {
    (a * b) / one()
}

/// The raw bits of the quotient of two fixed-point values, rounded toward zero.
pub open spec fn quotient(a: int, b: int) -> int {
    let n = a * one();
    let q = abs(n) / abs(b);
    if (n < 0) == (b < 0) {
        q
    } else {
        -q
    }
}

pub open spec fn abs(x: int) -> int {
    if x < 0 {
        -x
    } else {
        x
    }
}

/// Relies on `I80F48::from_num` for an `i64`: the value is exact and always in range.
#[verifier::external_body]
pub(crate) fn from_int(n: i64) -> (r: i128)
    ensures
        r == n * one(),
{
    I80F48::from_num(n).to_bits()
}

/// Relies on `I80F48::checked_add`: the sum of the raw bits, `None` on overflow.
#[verifier::external_body]
pub(crate) fn checked_add(a: i128, b: i128) -> (r: Option<i128>)
    ensures
        r == (if in_i128(a + b) {
            Some((a + b) as i128)
        } else {
            None::<i128>
        }),
{
    I80F48::from_bits(a).checked_add(I80F48::from_bits(b)).map(|x| x.to_bits())
}

/// Relies on `I80F48::checked_neg`: the negated raw bits, `None` on overflow.
#[verifier::external_body]
pub(crate) fn checked_neg(a: i128) -> (r: Option<i128>)
    ensures
        r == (if a != i128::MIN {
            Some(-a as i128)
        } else {
            None::<i128>
        }),
{
    I80F48::from_bits(a).checked_neg().map(|x| x.to_bits())
}

/// Relies on `I80F48::round_to_zero` followed by `checked_to_num::<i64>`:
/// the integer part truncated toward zero, `None` where it does not fit an `i64`.
#[verifier::external_body]
pub(crate) fn checked_trunc_i64(a: i128) -> (r: Option<i64>)
    ensures
        r == (if in_i64(trunc(a as int)) {
            Some(trunc(a as int) as i64)
        } else {
            None::<i64>
        }),
{
    I80F48::from_bits(a).round_to_zero().checked_to_num::<i64>()
}

/// Relies on `I80F48::checked_mul`: the wide product shifted right by the
/// fraction bits (rounded down), `None` where it leaves the range.
#[verifier::external_body]
pub(crate) fn checked_mul(a: i128, b: i128) -> (r: Option<i128>)
    ensures
        r == (if in_i128(product(a as int, b as int)) {
            Some(product(a as int, b as int) as i128)
        } else {
            None::<i128>
        }),
{
    I80F48::from_bits(a).checked_mul(I80F48::from_bits(b)).map(|x| x.to_bits())
}

/// Relies on `I80F48::checked_div`: the widened dividend divided by the
/// divisor (rounded toward zero), `None` for a zero divisor or where the
/// quotient leaves the range.
#[verifier::external_body]
pub(crate) fn checked_div(a: i128, b: i128) -> (r: Option<i128>)
    ensures
        r == (if b != 0 && in_i128(quotient(a as int, b as int)) {
            Some(quotient(a as int, b as int) as i128)
        } else {
            None::<i128>
        }),
{
    I80F48::from_bits(a).checked_div(I80F48::from_bits(b)).map(|x| x.to_bits())
}

} // verus!
