//! Numeric validation functions.

use vstd::prelude::*;
use vstd::std_specs::cmp::PartialOrdSpec;
use core::cmp::Ordering;

verus! {

/// Validates if a number is within a specified range (inclusive).
pub fn is_in_range<T: PartialOrd>(value: T, min: T, max: T) -> (r: bool)
    ensures
        T::obeys_partial_cmp_spec() ==> r == ({
            &&& value.partial_cmp_spec(&min) matches Some(Ordering::Greater | Ordering::Equal)
            &&& value.partial_cmp_spec(&max) matches Some(Ordering::Less | Ordering::Equal)
        }),
{
    value >= min && value <= max
}

/// Validates if a number is strictly above its type's default value.
pub fn is_positive<T: PartialOrd + Default>(value: T) -> bool {
    value > T::default()
}

/// Validates if a number is strictly below its type's default value.
pub fn is_negative<T: PartialOrd + Default>(value: T) -> bool {
    value < T::default()
}

/// Validates if a number equals its type's default value.
pub fn is_zero<T: PartialEq + Default>(value: T) -> bool {
    value == T::default()
}

/// Validates if a number is even.
pub fn is_even(value: i64) -> (r: bool)
    ensures
        r == (value as int % 2 == 0),
{
    value % 2 == 0
}

/// Validates if a number is odd.
pub fn is_odd(value: i64) -> (r: bool)
    ensures
        r == (value as int % 2 != 0),
{
    value % 2 != 0
}

/// Validates if a number is a multiple of another number; nothing is a
/// multiple of zero.
pub fn is_multiple_of(value: i64, divisor: i64) -> (r: bool)
    ensures
        r == (divisor != 0 && vstd::math::abs(value as int) % vstd::math::abs(divisor as int)
            == 0),
{
    if divisor == 0 {
        return false;
    }
    let v128: i128 = value as i128;
    let d128: i128 = divisor as i128;
    let a: u64 = (if v128 < 0 {
        -v128
    } else {
        v128
    }) as u64;
    let b: u64 = (if d128 < 0 {
        -d128
    } else {
        d128
    }) as u64;
    a % b == 0
}

} // verus!
