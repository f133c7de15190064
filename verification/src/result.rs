//! The result of an evaluation: the Laurent expansion of an integral in the
//! regulator, down to the double pole.

use vstd::prelude::*;
use vstd::string::StringExecFns;
use crate::complex::ComplexValue;

verus! {

/// The three coefficients of a Laurent expansion in the regulator: at
/// position 0 the finite part, at 1 the residue of the single pole, at 2 that
/// of the double pole. Where an integral has no pole the engine leaves the
/// last two zero.
#[derive(Clone, Copy, Debug)]
pub struct OLOResult {
    values: [ComplexValue; 3],
}

impl View for OLOResult {
    type V = Seq<ComplexValue>;

    /// The coefficients by position.
    closed spec fn view(&self) -> Seq<ComplexValue> {
        self.values@
    }
}

impl OLOResult {
    /// Every coefficient is positive zero in both parts: the state in which
    /// a result is handed to the engine.
    pub open spec fn is_cleared(self) -> bool {
        self@[0].is_cleared() && self@[1].is_cleared() && self@[2].is_cleared()
    }

    /// Equality coefficient by coefficient, each as numbers, without
    /// tolerance.
    pub open spec fn same_numbers(self, other: OLOResult) -> bool {
        &&& self@[0].same_number(other@[0])
        &&& self@[1].same_number(other@[1])
        &&& self@[2].same_number(other@[2])
    }

    /// The text of a result whose coefficients are written `epsilon_0`,
    /// `epsilon_minus_1` and `epsilon_minus_2`.
    pub open spec fn rendered(
        epsilon_0: Seq<char>,
        epsilon_minus_1: Seq<char>,
        epsilon_minus_2: Seq<char>,
    ) -> Seq<char> {
        "ε⁰: "@ + epsilon_0 + ", ε⁻¹: "@ + epsilon_minus_1 + ", ε⁻²: "@ + epsilon_minus_2
    }

    /// A result always holds three coefficients.
    pub proof fn lemma_three_coefficients(self)
        ensures
            self@.len() == 3,
    {
    }

    /// The result with the given coefficients.
    pub fn new(
        epsilon_0: ComplexValue,
        epsilon_minus_1: ComplexValue,
        epsilon_minus_2: ComplexValue,
    ) -> (r: OLOResult)
        ensures
            r@ == seq![epsilon_0, epsilon_minus_1, epsilon_minus_2],
    {
        OLOResult { values: [epsilon_0, epsilon_minus_1, epsilon_minus_2] }
    }

    /// The finite part.
    pub fn epsilon_0(&self) -> (c: ComplexValue)
        ensures
            c == self@[0],
    {
        self.values[0]
    }

    /// The residue of the single pole.
    pub fn epsilon_minus_1(&self) -> (c: ComplexValue)
        ensures
            c == self@[1],
    {
        self.values[1]
    }

    /// The residue of the double pole.
    pub fn epsilon_minus_2(&self) -> (c: ComplexValue)
        ensures
            c == self@[2],
    {
        self.values[2]
    }

    /// Lays out the text of a result from the texts of its coefficients,
    /// finite part first.
    pub fn render(epsilon_0: &str, epsilon_minus_1: &str, epsilon_minus_2: &str) -> (s: String)
        ensures
            s@ == OLOResult::rendered(epsilon_0@, epsilon_minus_1@, epsilon_minus_2@),
    {
        let mut s = String::from_str("ε⁰: ");
        s.append(epsilon_0);
        s.append(", ε⁻¹: ");
        s.append(epsilon_minus_1);
        s.append(", ε⁻²: ");
        s.append(epsilon_minus_2);
        s
    }
}

impl Default for OLOResult {
    /// The cleared result that an evaluation starts from.
    fn default() -> (r: OLOResult)
        ensures
            r.is_cleared(),
    {
        OLOResult { values: [ComplexValue::zero(), ComplexValue::zero(), ComplexValue::zero()] }
    }
}

impl PartialEq for OLOResult {
    /// Compares the coefficients as numbers.
    fn eq(&self, other: &OLOResult) -> (r: bool) {
        self.values[0] == other.values[0] && self.values[1] == other.values[1] && self.values[2]
            == other.values[2]
    }
}

impl vstd::std_specs::cmp::PartialEqSpecImpl for OLOResult {
    open spec fn obeys_eq_spec() -> bool {
        true
    }

    open spec fn eq_spec(&self, other: &OLOResult) -> bool {
        self.same_numbers(*other)
    }
}

} // verus!
