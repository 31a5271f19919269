//! Exact integer representation of one transformed coefficient.
//!
//! A frequency-domain coefficient is a real number.  This library carries it
//! as a sign flag together with a magnitude key: an unsigned integer whose
//! ordering and equality agree with the ordering and equality of the
//! coefficient magnitudes (for IEEE 754 doubles, the bit pattern of the
//! absolute value is such a key).  Every selection policy only compares
//! magnitudes and assigns exact zeros, so on this representation the
//! policies are exact.

use vstd::prelude::*;

verus! {

/// One transformed coefficient: a sign and a magnitude key.
///
/// `mag` is zero exactly when the coefficient is zero, and comparing `mag`
/// values as integers compares the coefficient magnitudes.
#[derive(Clone, Copy, PartialEq, Eq, Structural, Debug)]
pub struct Coef {
    /// True when the coefficient is negative.
    pub neg: bool,
    /// Order-preserving key of the coefficient's absolute value.
    pub mag: u64,
}

impl Coef {
    /// The exact zero coefficient that a policy assigns to a removed entry.
    pub open spec fn zero_spec() -> Coef {
        Coef { neg: false, mag: 0 }
    }

    /// Builds the exact zero coefficient.
    pub fn zero() -> (r: Coef)
        ensures
            r == Coef::zero_spec(),
    {
        Coef { neg: false, mag: 0 }
    }
}

/// The sequence of magnitude keys of a sequence of coefficients.
pub open spec fn mags_of(s: Seq<Coef>) -> Seq<u64> {
    s.map_values(|c: Coef| c.mag)
}

} // verus!
