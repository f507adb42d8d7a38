//! A domain-clamped scalar cell.
//!
//! A `Variable` holds a binary64 value together with the `[min, max]`
//! interval it must stay inside. Every write goes through [`Variable::set`],
//! which clamps the incoming value onto the interval, so no mutation path
//! can leave the domain once it is established.
use vstd::prelude::*;
use crate::arith::{add_bits_spec, div_bits_spec, f64_add, f64_div, f64_mul, f64_sub, mul_bits_spec, sub_bits_spec};
use crate::fp::{lt_spec, f64_lt};

verus! {

/// What `set` stores: the incoming value pushed back onto the domain
/// boundary it crossed. A NaN value crosses neither boundary and is
/// stored as it is, as the underlying comparisons dictate.
pub open spec fn clamp_spec(v: u64, min: u64, max: u64) -> u64 {
    if lt_spec(max, v) {
        max
    } else if lt_spec(v, min) {
        min
    } else {
        v
    }
}

/// A scalar cell with a clamped domain. All three fields are binary64
/// bit patterns.
#[derive(Clone, Copy, Debug, PartialEq, Eq, Structural)]
pub struct Variable {
    pub value: u64,
    pub min: u64,
    pub max: u64,
}

impl Variable {
    /// Creates a cell with the given starting value and domain. The
    /// starting value is stored as given; only later writes clamp.
    pub fn new(value: u64, min: u64, max: u64) -> (v: Variable)
        ensures
            v.value == value,
            v.min == min,
            v.max == max,
    {
        Variable { value, min, max }
    }

    /// The current value of the cell.
    pub fn value(&self) -> (r: u64)
        ensures
            r == self.value,
    {
        self.value
    }

    /// Sets the value of the cell, clamping it to `self.min` or
    /// `self.max` if the given value lies outside the domain.
    pub fn set(&mut self, new_value: u64)
        ensures
            final(self).value == clamp_spec(new_value, old(self).min, old(self).max),
            final(self).min == old(self).min,
            final(self).max == old(self).max,
    {
        if f64_lt(self.max, new_value) {
            self.value = self.max;
        } else if f64_lt(new_value, self.min) {
            self.value = self.min;
        } else {
            self.value = new_value;
        }
    }

    /// Adds to the current value, storing the sum through the clamp.
    pub fn add_assign(&mut self, rhs: u64)
        ensures
            final(self).value == clamp_spec(
                add_bits_spec(old(self).value, rhs),
                old(self).min,
                old(self).max,
            ),
            final(self).min == old(self).min,
            final(self).max == old(self).max,
    {
        let nv = f64_add(self.value, rhs);
        self.set(nv);
    }

    /// Subtracts from the current value, storing the difference through
    /// the clamp.
    pub fn sub_assign(&mut self, rhs: u64)
        ensures
            final(self).value == clamp_spec(
                sub_bits_spec(old(self).value, rhs),
                old(self).min,
                old(self).max,
            ),
            final(self).min == old(self).min,
            final(self).max == old(self).max,
    {
        let nv = f64_sub(self.value, rhs);
        self.set(nv);
    }

    /// Multiplies the current value, storing the product through the
    /// clamp.
    pub fn mul_assign(&mut self, rhs: u64)
        ensures
            final(self).value == clamp_spec(
                mul_bits_spec(old(self).value, rhs),
                old(self).min,
                old(self).max,
            ),
            final(self).min == old(self).min,
            final(self).max == old(self).max,
    {
        let nv = f64_mul(self.value, rhs);
        self.set(nv);
    }

    /// Divides the current value, storing the quotient through the
    /// clamp.
    pub fn div_assign(&mut self, rhs: u64)
        ensures
            final(self).value == clamp_spec(
                div_bits_spec(old(self).value, rhs),
                old(self).min,
                old(self).max,
            ),
            final(self).min == old(self).min,
            final(self).max == old(self).max,
    {
        let nv = f64_div(self.value, rhs);
        self.set(nv);
    }
}

} // verus!
