//! The factor between the engine's normalization of an integral and that of
//! a Feynman diagram.

use vstd::prelude::*;
use crate::double::{Double, INFINITY_BITS, MAGNITUDE_MASK};

verus! {

/// The encoding of the double nearest to -1/(16 pi^2), the factor that
/// brings a coefficient from the engine's normalization to that of a Feynman
/// diagram.
pub const TO_FEYNMAN: u64 = 0xbf79_f02f_6222_c720;

/// The factor as a double.
pub fn to_feynman() -> (factor: Double)
    ensures
        factor.bits == TO_FEYNMAN,
        !factor.is_nan(),
        !factor.is_zero(),
        factor.magnitude() < INFINITY_BITS,
        factor.bits > MAGNITUDE_MASK,
{
    assert(0xbf79_f02f_6222_c720u64 & 0x7fff_ffff_ffff_ffffu64 == 0x3f79_f02f_6222_c720u64)
        by (bit_vector);
    Double::from_bits(TO_FEYNMAN)
}

} // verus!
