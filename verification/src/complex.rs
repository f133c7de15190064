//! Complex double-precision scalars, the unit of input and output of every
//! integral.

use vstd::prelude::*;
use crate::double::Double;

verus! {

/// A complex number as a pair of doubles. A plain value: no pair is refused.
#[derive(Clone, Copy, Debug)]
pub struct ComplexValue {
    /// Real part.
    pub re: Double,
    /// Imaginary part.
    pub im: Double,
}

impl ComplexValue {
    /// The complex number that a real stands for: the real itself beside an
    /// imaginary part of positive zero.
    pub open spec fn of_real(re: Double) -> ComplexValue {
        ComplexValue { re, im: Double::spec_zero() }
    }

    /// Both parts are positive zero.
    pub open spec fn is_cleared(self) -> bool {
        self.re.bits == 0 && self.im.bits == 0
    }

    /// Equality part by part, each as numbers.
    pub open spec fn same_number(self, other: ComplexValue) -> bool {
        self.re.same_number(other.re) && self.im.same_number(other.im)
    }

    /// The complex number with the given parts.
    pub fn new(re: Double, im: Double) -> (c: ComplexValue)
        ensures
            c.re == re,
            c.im == im,
    {
        ComplexValue { re, im }
    }

    /// Positive zero in both parts.
    pub fn zero() -> (c: ComplexValue)
        ensures
            c.is_cleared(),
    {
        ComplexValue { re: Double::zero(), im: Double::zero() }
    }
}

impl From<Double> for ComplexValue {
    /// A real-valued invariant enters the engine as a complex number whose
    /// imaginary part is positive zero.
    fn from(re: Double) -> (c: ComplexValue) {
        ComplexValue { re, im: Double::zero() }
    }
}

impl vstd::std_specs::convert::FromSpecImpl<Double> for ComplexValue {
    open spec fn obeys_from_spec() -> bool {
        true
    }

    open spec fn from_spec(re: Double) -> ComplexValue {
        ComplexValue::of_real(re)
    }
}

impl PartialEq for ComplexValue {
    /// Compares the numbers, not the encodings.
    fn eq(&self, other: &ComplexValue) -> (r: bool) {
        self.re == other.re && self.im == other.im
    }
}

impl vstd::std_specs::cmp::PartialEqSpecImpl for ComplexValue {
    open spec fn obeys_eq_spec() -> bool {
        true
    }

    open spec fn eq_spec(&self, other: &ComplexValue) -> bool {
        self.same_number(*other)
    }
}

} // verus!
