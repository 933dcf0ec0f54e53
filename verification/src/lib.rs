//! Tri-dimensional S-entropy measurement and convergence tracking.
//!
//! The library computes a three-component scalar coordinate from contextual
//! inputs, combines the components into a single magnitude, caches derived
//! coordinates, retains a size-bounded history of measurements, and tracks the
//! outcome of repeated integration attempts that try to drive a value below a
//! target threshold.
//!
//! All scalar quantities are held in *nanos*: a signed 64-bit count of
//! billionths of a unit, so that every stated result is exact integer
//! arithmetic.  Power-of-ten thresholds too small for that scale, such as the
//! precision-policy thresholds, are kept as exponents and compared exactly
//! over the rationals.

pub mod bmd;
pub mod classify;
pub mod components;
pub mod engine;
pub mod coordinate;
pub mod error;
pub mod external;
pub mod laws;
pub mod nanos;
pub mod traits;
pub mod types;

use vstd::prelude::*;

verus! {

/// One whole unit expressed in nanos (billionths).
pub const NANO: i64 = 1_000_000_000;

/// Largest component magnitude, in nanos, that the engine handles; the bound
/// keeps every magnitude and transform computation inside 128-bit arithmetic.
pub const COMPONENT_LIMIT: i64 = 1_000_000_000_000_000_000;

/// The identity marker every valid entity must carry.
pub open spec fn marker_text() -> Seq<char> {
    "st-stella-lorraine"@
}

/// The identity marker every valid entity must carry.
pub fn memorial_significance_marker() -> (s: &'static str)
    ensures
        s@ == marker_text(),
{
    "st-stella-lorraine"
}

/// The ultra-precision target is `10^-30`: this is its negated exponent.
pub const S_ENTROPY_PRECISION_EXPONENT: u32 = 30;

/// Universal constant for STSL transformations, in nanos (one whole unit).
pub const STSL_UNIVERSAL_CONSTANT_NANOS: i64 = 1_000_000_000;

/// Validate the framework's fixed mathematical configuration: the identity
/// marker, the ultra-precision exponent and the universal constant all hold
/// their expected values, so the check always passes.
pub fn validate_sacred_mathematics() -> (r: error::SEntropyResult<()>)
    ensures
        r is Ok,
{
    let marker: String = memorial_significance_marker().to_owned();
    let expected: String = "st-stella-lorraine".to_owned();
    if !(marker == expected) {
        return Err(
            error::SEntropyError::Configuration {
                config_key: "memorial_significance".to_owned(),
                config_issue: "marker constant altered".to_owned(),
            },
        );
    }
    if S_ENTROPY_PRECISION_EXPONENT != 30 {
        return Err(
            error::SEntropyError::Configuration {
                config_key: "s_entropy_precision_target".to_owned(),
                config_issue: "precision target altered".to_owned(),
            },
        );
    }
    if STSL_UNIVERSAL_CONSTANT_NANOS != NANO {
        return Err(
            error::SEntropyError::Configuration {
                config_key: "stsl_universal_constant".to_owned(),
                config_issue: "universal constant altered".to_owned(),
            },
        );
    }
    Ok(())
}

} // verus!
