//! Exact binary64 arithmetic, performed by software floating point on the
//! bit patterns that the engine carries.
//!
//! The four arithmetic operators and the literal parser are entrusted to
//! `rustc_apfloat`, whose `Double` type implements IEEE-754 binary64 with
//! round-to-nearest-ties-to-even, the rounding every binary64 operation
//! uses. Each result below is a pure function of the operand patterns, so
//! it is given a name that the callers' contracts speak of.
use vstd::prelude::*;
use rustc_apfloat::Float;
use rustc_apfloat::ieee::Double;

verus! {

/// The binary64 sum of the numbers with patterns `a` and `b`.
pub uninterp spec fn add_bits_spec(a: u64, b: u64) -> u64;

/// The binary64 difference of the numbers with patterns `a` and `b`.
pub uninterp spec fn sub_bits_spec(a: u64, b: u64) -> u64;

/// The binary64 product of the numbers with patterns `a` and `b`.
pub uninterp spec fn mul_bits_spec(a: u64, b: u64) -> u64;

/// The binary64 quotient of the numbers with patterns `a` and `b`.
pub uninterp spec fn div_bits_spec(a: u64, b: u64) -> u64;

/// The binary64 number that the decimal literal `s` denotes, or `None`
/// when `s` is not a literal.
pub uninterp spec fn parsed_number_spec(s: Seq<char>) -> Option<u64>;

/// Relies on `rustc_apfloat::ieee::Double` addition: the IEEE-754
/// binary64 sum of the operands, which depends on the operands alone.
#[verifier::external_body]
pub(crate) fn f64_add(a: u64, b: u64) -> (r: u64)
    ensures
        r == add_bits_spec(a, b),
{
    (Double::from_bits(a as u128) + Double::from_bits(b as u128)).value.to_bits() as u64
}

/// Relies on `rustc_apfloat::ieee::Double` subtraction: the IEEE-754
/// binary64 difference of the operands, a function of the operands alone.
#[verifier::external_body]
pub(crate) fn f64_sub(a: u64, b: u64) -> (r: u64)
    ensures
        r == sub_bits_spec(a, b),
{
    (Double::from_bits(a as u128) - Double::from_bits(b as u128)).value.to_bits() as u64
}

/// Relies on `rustc_apfloat::ieee::Double` multiplication: the IEEE-754
/// binary64 product of the operands, a function of the operands alone.
#[verifier::external_body]
pub(crate) fn f64_mul(a: u64, b: u64) -> (r: u64)
    ensures
        r == mul_bits_spec(a, b),
{
    (Double::from_bits(a as u128) * Double::from_bits(b as u128)).value.to_bits() as u64
}

/// Relies on `rustc_apfloat::ieee::Double` division: the IEEE-754
/// binary64 quotient of the operands, a function of the operands alone.
/// A zero divisor gives an infinity or a NaN, never a fault.
#[verifier::external_body]
pub(crate) fn f64_div(a: u64, b: u64) -> (r: u64)
    ensures
        r == div_bits_spec(a, b),
{
    (Double::from_bits(a as u128) / Double::from_bits(b as u128)).value.to_bits() as u64
}

/// Relies on `rustc_apfloat::ieee::Double::from_str`: the correctly
/// rounded binary64 value of a decimal literal, a function of the text
/// alone; text that is no literal is reported, not a fault.
#[verifier::external_body]
pub(crate) fn parse_number(s: &str) -> (r: Option<u64>)
    ensures
        r == parsed_number_spec(s@),
{
    match s.parse::<Double>() {
        Ok(d) => Some(d.to_bits() as u64),
        Err(_) => None,
    }
}

} // verus!
