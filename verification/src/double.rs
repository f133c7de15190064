//! Double-precision numbers, held by their IEEE-754 binary64 encoding.

use vstd::prelude::*;

verus! {

/// Every bit of a binary64 encoding but the sign.
pub const MAGNITUDE_MASK: u64 = 0x7fff_ffff_ffff_ffff;

/// The encoding of positive infinity: exponent all ones, fraction zero.
pub const INFINITY_BITS: u64 = 0x7ff0_0000_0000_0000;

/// A double-precision number, held by the 64 bits of its IEEE-754
/// binary64 encoding: one sign bit, eleven exponent bits, fifty-two
/// fraction bits.
#[derive(Clone, Copy, Debug)]
pub struct Double {
    /// The encoding.
    pub bits: u64,
}

impl Double {
    /// The encoding with the sign bit cleared.
    pub open spec fn magnitude(self) -> u64 {
        self.bits & MAGNITUDE_MASK
    }

    /// Not a number: exponent all ones and a fraction that is not zero.
    pub open spec fn is_nan(self) -> bool {
        self.magnitude() > INFINITY_BITS
    }

    /// Positive or negative zero.
    pub open spec fn is_zero(self) -> bool {
        self.magnitude() == 0
    }

    /// Equality of the numbers two encodings stand for: a NaN equals
    /// nothing, the two zeros equal each other, and any other two values are
    /// equal exactly when their encodings are.
    pub open spec fn same_number(self, other: Double) -> bool {
        &&& !self.is_nan()
        &&& !other.is_nan()
        &&& (self.bits == other.bits || (self.is_zero() && other.is_zero()))
    }

    /// Positive zero, the all-zero encoding.
    pub open spec fn spec_zero() -> Double {
        Double { bits: 0 }
    }

    /// The double with the given encoding.
    pub fn from_bits(bits: u64) -> (r: Double)
        ensures
            r.bits == bits,
    {
        Double { bits }
    }

    /// The encoding of this double.
    pub fn to_bits(self) -> (bits: u64)
        ensures
            bits == self.bits,
    {
        self.bits
    }

    /// Positive zero, the all-zero encoding.
    #[verifier::when_used_as_spec(spec_zero)]
    pub fn zero() -> (r: Double)
        ensures
            r == Double::spec_zero(),
    {
        Double { bits: 0 }
    }
}

impl PartialEq for Double {
    /// Compares the numbers, not the encodings: see [`Double::same_number`].
    fn eq(&self, other: &Double) -> (r: bool) {
        let a: u64 = self.bits & MAGNITUDE_MASK;
        let b: u64 = other.bits & MAGNITUDE_MASK;
        a <= INFINITY_BITS && b <= INFINITY_BITS && (self.bits == other.bits || (a == 0 && b
            == 0))
    }
}

impl vstd::std_specs::cmp::PartialEqSpecImpl for Double {
    open spec fn obeys_eq_spec() -> bool {
        true
    }

    open spec fn eq_spec(&self, other: &Double) -> bool {
        self.same_number(*other)
    }
}

/// Equality of numbers does not depend on the side a value stands on.
pub proof fn lemma_same_number_symmetric(a: Double, b: Double)
    ensures
        a.same_number(b) == b.same_number(a),
{
}

/// A value equals itself exactly when it is a number: two evaluations that
/// agree bit for bit compare equal unless they hold a NaN.
pub proof fn lemma_same_number_reflexive(a: Double)
    ensures
        a.same_number(a) == !a.is_nan(),
{
}

/// Numbers that compare equal have the same encoding, but for the two zeros.
pub proof fn lemma_same_number_bits(a: Double, b: Double)
    requires
        a.same_number(b),
        !a.is_zero(),
    ensures
        a.bits == b.bits,
{
}

} // verus!
