//! The four integral families. Each function fixes the call that evaluates
//! one integral: which entry point of the engine, and what it is handed.
//!
//! Invariants are real, under the (+,-,-,-) metric; they enter the engine as
//! complex numbers with an imaginary part of positive zero. Squared masses are
//! complex and are handed on as given: by convention their imaginary part is
//! not positive, which is the caller's to see to and is not tested here.
//! Results come in the engine's own normalization.

use vstd::prelude::*;
use crate::call::EngineCall;
use crate::complex::ComplexValue;
use crate::double::Double;

verus! {

/// The call that evaluates the one-point (tadpole) function of a propagator
/// of squared mass `m`.
pub fn one_point(m: ComplexValue) -> (call: EngineCall)
    ensures
        call == (EngineCall::OnePoint { m }),
{
    EngineCall::OnePoint { m }
}

/// The call that evaluates the two-point (bubble) function of two
/// propagators of squared masses `m1` and `m2`, with the squared momentum `p`
/// flowing through the pair.
pub fn two_point(p: Double, m1: ComplexValue, m2: ComplexValue) -> (call: EngineCall)
    ensures
        call == (EngineCall::TwoPoint { p: ComplexValue::of_real(p), m1, m2 }),
{
    EngineCall::TwoPoint { p: ComplexValue::from(p), m1, m2 }
}

/// The call that evaluates the three-point (triangle) function: `p1`, `p2`
/// and `p3` are the squared momenta of the legs, `p3` being that of the leg
/// that closes the triangle, and `m1`, `m2`, `m3` the squared masses of the
/// propagators.
pub fn three_point(
    p1: Double,
    p2: Double,
    p3: Double,
    m1: ComplexValue,
    m2: ComplexValue,
    m3: ComplexValue,
) -> (call: EngineCall)
    ensures
        call == (EngineCall::ThreePoint {
            p1: ComplexValue::of_real(p1),
            p2: ComplexValue::of_real(p2),
            p3: ComplexValue::of_real(p3),
            m1,
            m2,
            m3,
        }),
{
    EngineCall::ThreePoint {
        p1: ComplexValue::from(p1),
        p2: ComplexValue::from(p2),
        p3: ComplexValue::from(p3),
        m1,
        m2,
        m3,
    }
}

/// The call that evaluates the four-point (box) function: `p1` to `p4` are
/// the squared momenta of the legs, `p4` being that of the leg that closes
/// the box, `p12` and `p23` those of the sums of the first and second and of
/// the second and third leg, and `m1` to `m4` the squared masses of the
/// propagators.
pub fn four_point(
    p1: Double,
    p2: Double,
    p3: Double,
    p4: Double,
    p12: Double,
    p23: Double,
    m1: ComplexValue,
    m2: ComplexValue,
    m3: ComplexValue,
    m4: ComplexValue,
) -> (call: EngineCall)
    ensures
        call == (EngineCall::FourPoint {
            p1: ComplexValue::of_real(p1),
            p2: ComplexValue::of_real(p2),
            p3: ComplexValue::of_real(p3),
            p4: ComplexValue::of_real(p4),
            p12: ComplexValue::of_real(p12),
            p23: ComplexValue::of_real(p23),
            m1,
            m2,
            m3,
            m4,
        }),
{
    EngineCall::FourPoint {
        p1: ComplexValue::from(p1),
        p2: ComplexValue::from(p2),
        p3: ComplexValue::from(p3),
        p4: ComplexValue::from(p4),
        p12: ComplexValue::from(p12),
        p23: ComplexValue::from(p23),
        m1,
        m2,
        m3,
        m4,
    }
}

} // verus!
