//! Outcome of the parameter sanitizer that a fitting front end runs before it
//! evaluates the convolution. The comparisons on the floating-point
//! parameters are made by the caller; this module turns their results into
//! diagnostics, or into the one fatal configuration error.
use vstd::prelude::*;

verus! {

/// A diagnostic that does not stop the evaluation.
#[derive(Clone, Copy, Debug, PartialEq, Eq, Structural)]
pub enum Warning {
    /// `eta` was below `1e-9` and has been raised to `1e-9`.
    EtaClamped,
    /// `sigma` exceeds `100 * eta`: the convolution may oscillate.
    OscillationRisk,
}

/// A configuration that must not be evaluated.
#[derive(Clone, Copy, Debug, PartialEq, Eq, Structural)]
pub enum ConfigError {
    /// An amplitude was given and it is negative.
    NegativeAmplitude,
}

/// The warnings, in the order in which the parameters are checked.
pub open spec fn spec_warnings(eta_below_floor: bool, sigma_broad: bool) -> Seq<Warning> {
    (if eta_below_floor { seq![Warning::EtaClamped] } else { Seq::empty() })
        + (if sigma_broad { seq![Warning::OscillationRisk] } else { Seq::empty() })
}

/// What the sanitizer reports. `eta_below_floor` says whether `eta < 1e-9`;
/// `sigma_broad` whether `|sigma| > 100 * eta` once `eta` has been clamped;
/// `amplitude_negative` whether an amplitude was given and is negative.
pub fn parameter_report(eta_below_floor: bool, sigma_broad: bool, amplitude_negative: bool) -> (r: Result<Vec<Warning>, ConfigError>)
    ensures
        amplitude_negative ==> r == Err::<Vec<Warning>, ConfigError>(ConfigError::NegativeAmplitude),
        !amplitude_negative ==> (r matches Ok(w) && w@ == spec_warnings(eta_below_floor, sigma_broad)),
{
    if amplitude_negative {
        return Err(ConfigError::NegativeAmplitude);
    }
    let mut w: Vec<Warning> = Vec::new();
    if eta_below_floor {
        w.push(Warning::EtaClamped);
    }
    if sigma_broad {
        w.push(Warning::OscillationRisk);
    }
    proof {
        assert(w@ =~= spec_warnings(eta_below_floor, sigma_broad));
    }
    Ok(w)
}

} // verus!
