use vstd::prelude::*;
use rustc_apfloat::Float;
use rustc_apfloat::ieee::Double;

verus! {

/// The IEEE-754 double-precision sum of two numbers given as bit patterns.
pub uninterp spec fn add_bits(a: u64, b: u64) -> u64;

/// The IEEE-754 double-precision difference of two numbers given as bit
/// patterns.
pub uninterp spec fn sub_bits(a: u64, b: u64) -> u64;

/// The IEEE-754 double-precision product of two numbers given as bit
/// patterns.
pub uninterp spec fn mul_bits(a: u64, b: u64) -> u64;

/// The IEEE-754 double-precision quotient of two numbers given as bit
/// patterns. Division by zero yields the bits of an infinity or of a NaN, so
/// this is total.
pub uninterp spec fn div_bits(a: u64, b: u64) -> u64;

/// IEEE-754 negation flips the sign bit and leaves the rest of the
/// representation unchanged.
pub open spec fn neg_bits(a: u64) -> u64 {
    a ^ 0x8000_0000_0000_0000
}

/// Relies on rustc_apfloat's `ieee::Double` addition (IEEE-754 binary64,
/// round to nearest, ties to even): the result depends on the operand bit
/// patterns alone.
#[verifier::external_body]
pub(crate) fn add_exec(a: u64, b: u64) -> (r: u64)
    ensures
        r == add_bits(a, b),
{
    ((Double::from_bits(a as u128) + Double::from_bits(b as u128)).value.to_bits()) as u64
}

/// Relies on rustc_apfloat's `ieee::Double` subtraction (IEEE-754 binary64,
/// round to nearest, ties to even): the result depends on the operand bit
/// patterns alone.
#[verifier::external_body]
pub(crate) fn sub_exec(a: u64, b: u64) -> (r: u64)
    ensures
        r == sub_bits(a, b),
{
    ((Double::from_bits(a as u128) - Double::from_bits(b as u128)).value.to_bits()) as u64
}

/// Relies on rustc_apfloat's `ieee::Double` multiplication (IEEE-754
/// binary64, round to nearest, ties to even): the result depends on the
/// operand bit patterns alone.
#[verifier::external_body]
pub(crate) fn mul_exec(a: u64, b: u64) -> (r: u64)
    ensures
        r == mul_bits(a, b),
{
    ((Double::from_bits(a as u128) * Double::from_bits(b as u128)).value.to_bits()) as u64
}

/// Relies on rustc_apfloat's `ieee::Double` division (IEEE-754 binary64,
/// round to nearest, ties to even): the result depends on the operand bit
/// patterns alone.
#[verifier::external_body]
pub(crate) fn div_exec(a: u64, b: u64) -> (r: u64)
    ensures
        r == div_bits(a, b),
{
    ((Double::from_bits(a as u128) / Double::from_bits(b as u128)).value.to_bits()) as u64
}

/// Relies on rustc_apfloat's `ieee::Double` negation, which flips the sign
/// of the value and touches nothing else, so on the representation it is
/// exactly a flip of the sign bit.
#[verifier::external_body]
pub(crate) fn neg_exec(a: u64) -> (r: u64)
    ensures
        r == neg_bits(a),
{
    ((-Double::from_bits(a as u128)).to_bits()) as u64
}

} // verus!
