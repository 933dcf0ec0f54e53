//! Core tags and the precision policy.

use vstd::prelude::*;
use crate::nanos::{pow10, lemma_pow10_mono, lemma_pow10_pos, lemma_pow10_38, pow10_u128};
use crate::NANO;

verus! {

/// Precision level for S-entropy calculations.
#[derive(Debug, Clone, Copy, PartialEq, Eq, Structural)]
pub enum SEntropyPrecision {
    /// Standard precision for general use: threshold `10^-6`.
    Standard,
    /// High precision for scientific applications: threshold `10^-15`.
    High,
    /// Ultra precision for observer integration: threshold `10^-30`.
    Ultra,
    /// Supreme precision for marker validation: threshold `10^-50`.
    Supreme,
}

impl SEntropyPrecision {
    /// The negated power-of-ten exponent of this level's threshold: the
    /// threshold itself is `10^-e`.
    pub open spec fn spec_threshold_exponent(self) -> nat {
        match self {
            SEntropyPrecision::Standard => 6,
            SEntropyPrecision::High => 15,
            SEntropyPrecision::Ultra => 30,
            SEntropyPrecision::Supreme => 50,
        }
    }

    /// The convergence threshold of this level is `10^-e` for the returned `e`.
    pub fn threshold_exponent(self) -> (e: u32)
        ensures
            e == self.spec_threshold_exponent(),
    {
        match self {
            SEntropyPrecision::Standard => 6,
            SEntropyPrecision::High => 15,
            SEntropyPrecision::Ultra => 30,
            SEntropyPrecision::Supreme => 50,
        }
    }

    /// A magnitude of `m` nanos is optimal at this level exactly when the
    /// rational `m / 10^9` lies strictly below the threshold `10^-e`.
    pub open spec fn spec_is_optimal(self, magnitude: int) -> bool {
        magnitude * pow10(self.spec_threshold_exponent()) < NANO
    }

    /// Decide `magnitude < threshold`, exactly, over the rationals; a
    /// magnitude equal to the threshold is not optimal.
    pub fn is_optimal(self, magnitude: i64) -> (b: bool)
        requires
            magnitude >= 0,
        ensures
            b == self.spec_is_optimal(magnitude as int),
    {
        let e: u32 = self.threshold_exponent();
        proof {
            lemma_pow10_38();
        }
        if e <= 9 {
            let bound: u128 = pow10_u128(9 - e);
            let b = (magnitude as u128) < bound;
            proof {
                let ghost pe = pow10(e as nat);
                let ghost pb = pow10((9 - e) as nat);
                lemma_pow10_pos(e as nat);
                lemma_pow10_pos((9 - e) as nat);
                lemma_pow10_adds((9 - e) as nat, e as nat);
                assert(pow10(9) == NANO) by {
                    reveal_with_fuel(pow10, 10);
                }
                if magnitude < pb {
                    assert((magnitude as int) * pe < pb * pe) by (nonlinear_arith)
                        requires
                            magnitude < pb,
                            pe >= 1,
                    ;
                }
                if magnitude >= pb {
                    assert((magnitude as int) * pe >= pb * pe) by (nonlinear_arith)
                        requires
                            magnitude >= pb,
                            pe >= 1,
                    ;
                }
            }
            b
        } else {
            proof {
                let ghost pe = pow10(e as nat);
                lemma_pow10_mono(10, e as nat);
                assert(pow10(10) == 10_000_000_000int) by {
                    reveal_with_fuel(pow10, 11);
                }
                if magnitude >= 1 {
                    assert((magnitude as int) * pe >= pe) by (nonlinear_arith)
                        requires
                            magnitude >= 1,
                            pe >= 1,
                    ;
                }
            }
            magnitude == 0
        }
    }
}

/// `10^(a + b) == 10^a * 10^b`.
pub proof fn lemma_pow10_adds(a: nat, b: nat)
    ensures
        pow10(a + b) == pow10(a) * pow10(b),
    decreases a,
{
    if a == 0 {
    } else {
        lemma_pow10_adds((a - 1) as nat, b);
        assert(pow10(a + b) == 10 * pow10((a - 1) as nat + b));
        assert(10 * (pow10((a - 1) as nat) * pow10(b)) == (10 * pow10((a - 1) as nat)) * pow10(b))
            by (nonlinear_arith);
    }
}

/// Observer sophistication levels for universal accessibility.
#[derive(Debug, Clone, Copy, PartialEq, Eq, Structural)]
pub enum ObserverSophistication {
    /// Naive user requiring simple interactions.
    Naive,
    /// Intermediate user with some technical knowledge.
    Intermediate,
    /// Expert user with deep technical understanding.
    Expert,
    /// Universal observer with unlimited capability.
    Universal,
}

impl ObserverSophistication {
    /// The base information deficit of this level, in whole units.
    pub open spec fn spec_base_deficit(self) -> int {
        match self {
            ObserverSophistication::Naive => 1000,
            ObserverSophistication::Intermediate => 100,
            ObserverSophistication::Expert => 10,
            ObserverSophistication::Universal => 0,
        }
    }

    /// The base information deficit of this level, in whole units.
    pub fn base_deficit(self) -> (d: i64)
        ensures
            d == self.spec_base_deficit(),
    {
        match self {
            ObserverSophistication::Naive => 1000,
            ObserverSophistication::Intermediate => 100,
            ObserverSophistication::Expert => 10,
            ObserverSophistication::Universal => 0,
        }
    }
}

/// BMD operation modes.
#[derive(Debug, Clone, Copy, PartialEq, Eq, Structural)]
pub enum BMDOperationMode {
    /// Frame selection across predetermined manifolds.
    FrameSelection,
    /// Reality-frame fusion processing.
    RealityFusion,
    /// Memory fabrication and ridiculous solutions.
    MemoryFabrication,
    /// Temporal coherence through emotional delusion.
    TemporalCoherence,
    /// Agency experience generation.
    AgencyDelusion,
}

/// Consciousness enhancement modes.
#[derive(Debug, Clone, Copy, PartialEq, Eq, Structural)]
pub enum ConsciousnessMode {
    /// Enhancement only - never replacement.
    EnhancementOnly,
    /// Frame selection engine optimization.
    FrameSelectionEngine,
    /// Reality fusion enabled.
    RealityFusion,
    /// Agency preservation (strict boundaries).
    AgencyPreservation,
}

/// Strategic impossibility amplification levels.
#[derive(Debug, Clone, Copy, PartialEq, Eq, Structural)]
pub enum ImpossibilityAmplification {
    /// Mild impossibility for testing.
    Mild,
    /// Standard impossibility for normal operations.
    Standard,
    /// High impossibility for advanced optimization.
    High,
    /// Extreme impossibility for breakthrough solutions.
    Extreme,
}

impl ImpossibilityAmplification {
    /// The amplification factor of this level, in whole units.
    pub open spec fn spec_factor(self) -> int {
        match self {
            ImpossibilityAmplification::Mild => 10,
            ImpossibilityAmplification::Standard => 100,
            ImpossibilityAmplification::High => 1000,
            ImpossibilityAmplification::Extreme => 10000,
        }
    }

    /// The amplification factor for ridiculous solution generation.
    pub fn factor(self) -> (f: u64)
        ensures
            f == self.spec_factor(),
    {
        match self {
            ImpossibilityAmplification::Mild => 10,
            ImpossibilityAmplification::Standard => 100,
            ImpossibilityAmplification::High => 1000,
            ImpossibilityAmplification::Extreme => 10000,
        }
    }
}

} // verus!
