//! The tri-dimensional S-entropy coordinate.

use vstd::prelude::*;
use crate::external::{fresh_id, now_seconds};
use crate::nanos::isqrt_u128;
use crate::{marker_text, memorial_significance_marker, COMPONENT_LIMIT};

verus! {

/// Core S-entropy coordinate: three nano-scaled components, a derived
/// magnitude, an identity marker, a creation timestamp and a unique id.
#[derive(Debug, Clone)]
pub struct SEntropyCoordinate {
    /// Unique identifier for this coordinate.
    pub id: u128,
    /// S_knowledge component, in nanos.
    pub s_knowledge: i64,
    /// S_time component, in nanos.
    pub s_time: i64,
    /// S_entropy component, in nanos.
    pub s_entropy: i64,
    /// Unix timestamp (whole seconds) of coordinate creation.
    pub created_at: i64,
    /// Identity marker; a valid coordinate carries the expected constant.
    pub memorial_significance: String,
}

impl SEntropyCoordinate {
    /// Components small enough that the magnitude calculation cannot
    /// overflow; every coordinate the engine creates satisfies this.
    pub open spec fn wf(self) -> bool {
        &&& -COMPONENT_LIMIT <= self.s_knowledge <= COMPONENT_LIMIT
        &&& -COMPONENT_LIMIT <= self.s_time <= COMPONENT_LIMIT
        &&& -COMPONENT_LIMIT <= self.s_entropy <= COMPONENT_LIMIT
    }

    /// The sum of the squares of the three components.
    pub open spec fn magnitude_sq(self) -> int {
        self.s_knowledge * self.s_knowledge + self.s_time * self.s_time + self.s_entropy
            * self.s_entropy
    }

    /// Create a new coordinate carrying the expected identity marker.
    pub fn new(s_knowledge: i64, s_time: i64, s_entropy: i64) -> (c: Self)
        requires
            -COMPONENT_LIMIT <= s_knowledge <= COMPONENT_LIMIT,
            -COMPONENT_LIMIT <= s_time <= COMPONENT_LIMIT,
            -COMPONENT_LIMIT <= s_entropy <= COMPONENT_LIMIT,
        ensures
            c.s_knowledge == s_knowledge,
            c.s_time == s_time,
            c.s_entropy == s_entropy,
            c.memorial_significance@ == marker_text(),
            c.wf(),
    {
        SEntropyCoordinate {
            id: fresh_id(),
            s_knowledge,
            s_time,
            s_entropy,
            created_at: now_seconds(),
            memorial_significance: memorial_significance_marker().to_owned(),
        }
    }

    /// The total S-entropy magnitude in nanos: the floor square root of the
    /// sum of the squared components, so it differs from the real square root
    /// by less than one nano.
    pub fn total_magnitude(&self) -> (m: i64)
        requires
            self.wf(),
        ensures
            m >= 0,
            m * m <= self.magnitude_sq() < (m + 1) * (m + 1),
    {
        let k: i128 = self.s_knowledge as i128;
        let t: i128 = self.s_time as i128;
        let e: i128 = self.s_entropy as i128;
        proof {
            assert(k * k <= COMPONENT_LIMIT as int * COMPONENT_LIMIT as int && k * k >= 0)
                by (nonlinear_arith)
                requires
                    -COMPONENT_LIMIT <= k <= COMPONENT_LIMIT,
            ;
            assert(t * t <= COMPONENT_LIMIT as int * COMPONENT_LIMIT as int && t * t >= 0)
                by (nonlinear_arith)
                requires
                    -COMPONENT_LIMIT <= t <= COMPONENT_LIMIT,
            ;
            assert(e * e <= COMPONENT_LIMIT as int * COMPONENT_LIMIT as int && e * e >= 0)
                by (nonlinear_arith)
                requires
                    -COMPONENT_LIMIT <= e <= COMPONENT_LIMIT,
            ;
        }
        let sq: i128 = k * k + t * t + e * e;
        let r: u128 = isqrt_u128(sq as u128);
        proof {
            if r > 2_000_000_000_000_000_000u128 {
                assert(r * r > 3_000_000_000_000_000_000_000_000_000_000_000_000u128)
                    by (nonlinear_arith)
                    requires
                        r > 2_000_000_000_000_000_000u128,
                ;
            }
        }
        r as i64
    }

    /// Whether this coordinate represents near-perfect integration: its
    /// magnitude lies strictly below the ultra-precision target `10^-30`,
    /// which over the nanos representation holds exactly of the zero
    /// coordinate.
    pub fn is_optimal_integration(&self) -> (b: bool)
        requires
            self.wf(),
        ensures
            b == (self.s_knowledge == 0 && self.s_time == 0 && self.s_entropy == 0),
    {
        let m = self.total_magnitude();
        proof {
            let k = self.s_knowledge as int;
            let t = self.s_time as int;
            let e = self.s_entropy as int;
            let sq = self.magnitude_sq();
            assert(sq == k * k + t * t + e * e);
            if k == 0 && t == 0 && e == 0 {
                assert(sq == 0) by (nonlinear_arith)
                    requires
                        sq == k * k + t * t + e * e,
                        k == 0,
                        t == 0,
                        e == 0,
                ;
                assert(m * m <= 0 && m >= 0 ==> m == 0) by (nonlinear_arith);
            }
            if m == 0 {
                assert(sq < 1) by (nonlinear_arith)
                    requires
                        sq < (m + 1) * (m + 1),
                        m == 0,
                ;
                assert(sq >= 0) by (nonlinear_arith)
                    requires
                        sq == k * k + t * t + e * e,
                ;
                assert(sq == 0);
                assert(k == 0 && t == 0 && e == 0) by (nonlinear_arith)
                    requires
                        k * k + t * t + e * e == 0,
                ;
            }
        }
        m == 0
    }

    /// An exact copy of this coordinate, marker included.
    pub fn duplicate(&self) -> (c: Self)
        ensures
            c == *self,
    {
        SEntropyCoordinate {
            id: self.id,
            s_knowledge: self.s_knowledge,
            s_time: self.s_time,
            s_entropy: self.s_entropy,
            created_at: self.created_at,
            memorial_significance: self.memorial_significance.clone(),
        }
    }

    /// Whether this coordinate carries the expected identity marker.
    pub fn validates_memorial_significance(&self) -> (b: bool)
        ensures
            b == (self.memorial_significance@ == marker_text()),
    {
        self.memorial_significance == memorial_significance_marker().to_owned()
    }
}

} // verus!
