//! The calls that cross the boundary to the numerical engine.

use vstd::prelude::*;
use crate::complex::ComplexValue;
use crate::double::Double;
use crate::units::OLOUnit;

verus! {

/// One call into the engine, with its arguments as the engine takes them.
/// The three first change the engine's process-wide settings and return
/// nothing. The four last evaluate an integral: each is made once, with a
/// cleared result of three coefficients for the engine to fill.
#[derive(Clone, Copy, Debug, PartialEq)]
pub enum EngineCall {
    /// Set the renormalization scale.
    SetScale { mu: Double },
    /// Set the threshold under which an invariant counts as on shell.
    SetOnshell { threshold: Double },
    /// Send one class of diagnostic output to a sink.
    SetUnit { unit: OLOUnit, sink: i32 },
    /// The tadpole of one squared mass.
    OnePoint { m: ComplexValue },
    /// The bubble of one invariant and two squared masses.
    TwoPoint { p: ComplexValue, m1: ComplexValue, m2: ComplexValue },
    /// The triangle of three invariants and three squared masses.
    ThreePoint {
        p1: ComplexValue,
        p2: ComplexValue,
        p3: ComplexValue,
        m1: ComplexValue,
        m2: ComplexValue,
        m3: ComplexValue,
    },
    /// The box of six invariants and four squared masses.
    FourPoint {
        p1: ComplexValue,
        p2: ComplexValue,
        p3: ComplexValue,
        p4: ComplexValue,
        p12: ComplexValue,
        p23: ComplexValue,
        m1: ComplexValue,
        m2: ComplexValue,
        m3: ComplexValue,
        m4: ComplexValue,
    },
}

impl EngineCall {
    /// The call evaluates an integral, and so leaves the settings alone.
    pub open spec fn is_evaluation(self) -> bool {
        self is OnePoint || self is TwoPoint || self is ThreePoint || self is FourPoint
    }

    /// The call evaluates an integral.
    pub fn evaluates(&self) -> (b: bool)
        ensures
            b == self.is_evaluation(),
    {
        match self {
            EngineCall::OnePoint { .. } => true,
            EngineCall::TwoPoint { .. } => true,
            EngineCall::ThreePoint { .. } => true,
            EngineCall::FourPoint { .. } => true,
            _ => false,
        }
    }
}

} // verus!
