//! The tri-dimensional S-entropy measurement engine.
//!
//! The engine owns three independent stores: a cache of aligned coordinates
//! keyed by raw inputs and a coarse timestamp bucket, a bounded FIFO history
//! of measurements, and the observer-process integration tracker.  Callers
//! receive snapshots; no store is shared out by reference.

use vstd::prelude::*;
use crate::components::{
    calculate_separation_distance, lemma_order_at_least, spec_entropy_component,
    spec_knowledge_component, spec_time_component,
};
use crate::coordinate::SEntropyCoordinate;
use crate::error::{SEntropyError, SEntropyResult};
use crate::external::{fresh_id, now_seconds};
use crate::nanos::{decimal_order_u128, lemma_tdiv_bounds, tdiv, tdiv_i128};
use crate::types::{ObserverSophistication, SEntropyPrecision};
use crate::{marker_text, memorial_significance_marker, COMPONENT_LIMIT, NANO};
use vstd::pervasive::VecAdditionalExecFns;
use vstd::string::StrSliceExecFns;

verus! {

/// Cache key for an aligned coordinate: the three raw inputs and a coarse
/// (one-second) timestamp bucket.
#[derive(Debug, Clone, Copy, PartialEq, Eq, Structural)]
pub struct AlignmentKey {
    /// Raw S-knowledge input, in nanos.
    pub s_knowledge: i64,
    /// Raw S-time input, in nanos.
    pub s_time: i64,
    /// Raw S-entropy input, in nanos.
    pub s_entropy: i64,
    /// Unix second at which the alignment was performed.
    pub bucket: i64,
}

/// Individual S-entropy measurement record.
#[derive(Debug, Clone)]
pub struct SEntropyMeasurement {
    /// Measurement id.
    pub id: u128,
    /// S-knowledge component, in nanos.
    pub s_knowledge: i64,
    /// S-time component, in nanos.
    pub s_time: i64,
    /// S-entropy component, in nanos.
    pub s_entropy: i64,
    /// Total magnitude, in nanos.
    pub total_magnitude: i64,
    /// Observer sophistication at time of measurement.
    pub observer_sophistication: ObserverSophistication,
    /// Precision level used.
    pub precision: SEntropyPrecision,
    /// Whether optimal integration was achieved.
    pub optimal_integration: bool,
    /// Identity marker.
    pub memorial_significance: String,
    /// Measurement timestamp, Unix seconds.
    pub measured_at: i64,
}

/// Individual integration attempt record.
#[derive(Debug, Clone)]
pub struct IntegrationAttempt {
    /// Attempt id.
    pub id: u128,
    /// Target separation distance, in nanos.
    pub target_separation: i64,
    /// Achieved separation distance, in nanos.
    pub achieved_separation: i64,
    /// Whether the attempt was successful.
    pub successful: bool,
    /// Integration method used.
    pub method: String,
    /// Attempt timestamp, Unix seconds.
    pub attempted_at: i64,
}

/// Observer-process integration tracking state.
#[derive(Debug)]
pub(crate) struct ObserverProcessTracker {
    /// Current separation distance, in nanos.
    pub(crate) separation_distance: i64,
    /// Log of every attempt, in order.
    pub(crate) integration_attempts: Vec<IntegrationAttempt>,
    /// Number of successful attempts in the log.
    pub(crate) success_count: u64,
    /// Derived success rate, in nanos; zero while the log is empty.
    pub(crate) success_rate: i64,
    /// Timestamp of the last successful attempt, if any.
    pub(crate) last_success: Option<i64>,
}

/// Integration statistics snapshot.
#[derive(Debug, Clone)]
pub struct IntegrationStats {
    /// Current observer-process separation distance, in nanos.
    pub current_separation: i64,
    /// Success rate of integration attempts, in nanos.
    pub success_rate: i64,
    /// Total number of integration attempts.
    pub total_attempts: usize,
    /// Timestamp of the last successful integration, if any.
    pub last_success: Option<i64>,
    /// Whether the current separation lies below the precision threshold.
    pub optimal_integration_achieved: bool,
}

/// The success rate the tracker derives: successes over total, in nanos,
/// and zero while no attempt was made.
pub open spec fn spec_tracker_rate(successes: int, total: int) -> int {
    if total == 0 {
        0
    } else {
        successes * NANO / total
    }
}

/// Number of successful attempts in a log.
pub open spec fn count_successful(s: Seq<IntegrationAttempt>) -> int
    decreases s.len(),
{
    if s.len() == 0 {
        0
    } else {
        count_successful(s.drop_last()) + if s.last().successful {
            1int
        } else {
            0int
        }
    }
}

/// One decay step of the integration loop: reduce by ten percent, rounded
/// toward zero to whole nanos.
pub open spec fn decay_step(a: int) -> int {
    tdiv(9 * a, 10)
}

/// Run up to `fuel` decay steps, stopping as soon as the value reaches the
/// target; returns the final value and whether the target was reached.
pub open spec fn decay_run(a: int, target: int, fuel: nat) -> (int, bool)
    decreases fuel,
{
    if fuel == 0 {
        (a, a <= target)
    } else {
        let a2 = decay_step(a);
        if a2 <= target {
            (a2, true)
        } else {
            decay_run(a2, target, (fuel - 1) as nat)
        }
    }
}

/// The whole attempt: start ten percent above the target and run at most ten
/// decay steps.
pub open spec fn spec_attempt(target: int) -> (int, bool) {
    decay_run(tdiv(11 * target, 10), target, 10)
}

/// One decay step stays strictly above a negative target, both from any
/// value already above it and from the attempt's starting value.
proof fn lemma_step_above(a: int, target: int)
    requires
        target < 0,
        a > target || 10 * a >= 11 * target,
    ensures
        decay_step(a) > target,
{
    lemma_tdiv_bounds(9 * a, 10);
    let q = decay_step(a);
    if a >= 0 {
        assert(10 * q > 9 * a - 10);
    } else {
        assert(10 * q >= 9 * a);
        if a > target {
            assert(9 * a >= 9 * target + 9);
        } else {
            assert(90 * a >= 99 * target);
            assert(100 * q >= 90 * a) by (nonlinear_arith)
                requires
                    10 * q >= 9 * a,
            ;
        }
    }
}

/// Once above a negative target, the decay loop never reaches it.
proof fn lemma_run_fails(a: int, target: int, fuel: nat)
    requires
        target < 0,
        a > target,
    ensures
        !decay_run(a, target, fuel).1,
        decay_run(a, target, fuel).0 > target,
    decreases fuel,
{
    if fuel > 0 {
        lemma_step_above(a, target);
        let a2 = decay_step(a);
        assert(!(a2 <= target));
        lemma_run_fails(a2, target, (fuel - 1) as nat);
    }
}

/// The integration attempt is deterministic in the target alone: it succeeds
/// exactly for non-negative targets, and then after a single decay step.
pub proof fn lemma_attempt_convergence(target: int)
    ensures
        spec_attempt(target).1 <==> target >= 0,
        target >= 0 ==> spec_attempt(target) == (decay_step(tdiv(11 * target, 10)), true),
{
    let a0 = tdiv(11 * target, 10);
    lemma_tdiv_bounds(11 * target, 10);
    if target >= 0 {
        assert(10 * a0 <= 11 * target);
        lemma_tdiv_bounds(9 * a0, 10);
        let a1 = decay_step(a0);
        assert(10 * a0 > 11 * target - 10);
        assert(a0 >= 0);
        assert(10 * a1 <= 9 * a0);
        assert(100 * a1 <= 90 * a0) by (nonlinear_arith)
            requires
                10 * a1 <= 9 * a0,
        ;
        assert(100 * a1 <= 99 * target);
        assert(a1 <= target);
    } else {
        assert(10 * a0 >= 11 * target);
        lemma_step_above(a0, target);
        let a1 = decay_step(a0);
        if !(a1 <= target) {
            lemma_run_fails(a1, target, 9);
        }
    }
}

/// Core tri-dimensional S-entropy measurement engine.
#[derive(Debug)]
pub struct SEntropyEngine {
    /// Precision level for measurements.
    precision: SEntropyPrecision,
    /// The identity marker every record is stamped with and checked against.
    expected_significance: String,
    /// Aligned-coordinate cache; keys are unique, last write wins.
    coordinate_cache: Vec<(AlignmentKey, SEntropyCoordinate)>,
    /// Measurement history, oldest first, capped at 1000 records.
    measurement_history: Vec<SEntropyMeasurement>,
    /// Observer-process integration tracker.
    integration_tracker: ObserverProcessTracker,
}

impl SEntropyEngine {
    /// The engine's precision level.
    pub closed spec fn spec_precision(&self) -> SEntropyPrecision {
        self.precision
    }

    /// The measurement history, oldest first.
    pub closed spec fn spec_history(&self) -> Seq<SEntropyMeasurement> {
        self.measurement_history@
    }

    /// The aligned-coordinate cache entries, in insertion order.
    pub closed spec fn spec_cache(&self) -> Seq<(AlignmentKey, SEntropyCoordinate)> {
        self.coordinate_cache@
    }

    /// The integration attempt log, in order.
    pub closed spec fn spec_attempts(&self) -> Seq<IntegrationAttempt> {
        self.integration_tracker.integration_attempts@
    }

    /// The tracker's current separation distance, in nanos.
    pub closed spec fn spec_separation(&self) -> int {
        self.integration_tracker.separation_distance as int
    }

    /// The number of successful attempts in the log.
    pub closed spec fn spec_success_count(&self) -> int {
        self.integration_tracker.success_count as int
    }

    /// The tracker's derived success rate, in nanos.
    pub closed spec fn spec_success_rate(&self) -> int {
        self.integration_tracker.success_rate as int
    }

    /// The timestamp of the last successful attempt, if any.
    pub closed spec fn spec_last_success(&self) -> Option<i64> {
        self.integration_tracker.last_success
    }

    /// Internal consistency: the history is capped, the marker is the
    /// expected constant, the tracker's counts and rate match its log, the
    /// separation is in range, and cache keys are unique.
    pub closed spec fn wf(&self) -> bool {
        &&& self.measurement_history@.len() <= 1000
        &&& self.expected_significance@ == marker_text()
        &&& self.integration_tracker.success_count as int == count_successful(
            self.integration_tracker.integration_attempts@,
        )
        &&& self.integration_tracker.success_count as int
            <= self.integration_tracker.integration_attempts@.len()
        &&& self.integration_tracker.success_rate as int == spec_tracker_rate(
            self.integration_tracker.success_count as int,
            self.integration_tracker.integration_attempts@.len() as int,
        )
        &&& -2_000_000_000_000_000_000 <= self.integration_tracker.separation_distance
            <= 2_000_000_000_000_000_000
        &&& forall|i: int, j: int|
            0 <= i < j < self.coordinate_cache@.len() ==> self.coordinate_cache@[i].0
                != self.coordinate_cache@[j].0
    }

    /// Create a new engine at the given precision: empty cache, empty
    /// history, and a tracker starting at a separation of one thousand whole
    /// units with no attempts.
    pub fn new(precision: SEntropyPrecision) -> (engine: Self)
        ensures
            engine.wf(),
            engine.spec_precision() == precision,
            engine.spec_history() =~= Seq::<SEntropyMeasurement>::empty(),
            engine.spec_cache() =~= Seq::<(AlignmentKey, SEntropyCoordinate)>::empty(),
            engine.spec_attempts() =~= Seq::<IntegrationAttempt>::empty(),
            engine.spec_separation() == 1000 * NANO,
            engine.spec_success_count() == 0,
            engine.spec_success_rate() == 0,
            engine.spec_last_success() is None,
    {
        let engine = SEntropyEngine {
            precision,
            expected_significance: memorial_significance_marker().to_owned(),
            coordinate_cache: Vec::new(),
            measurement_history: Vec::new(),
            integration_tracker: ObserverProcessTracker {
                separation_distance: 1_000_000_000_000,
                integration_attempts: Vec::new(),
                success_count: 0,
                success_rate: 0,
                last_success: None,
            },
        };
        proof {
            assert(count_successful(engine.integration_tracker.integration_attempts@) == 0);
        }
        engine
    }

    /// Calculate S-knowledge: the observer's base information deficit plus
    /// the decimal order of the context length as the frame-selection
    /// adjustment, in nanos.  Always succeeds.
    pub fn calculate_s_knowledge(
        &self,
        problem_context: &str,
        observer: ObserverSophistication,
    ) -> (r: SEntropyResult<i64>)
        ensures
            r matches Ok(v) && v == spec_knowledge_component(
                observer,
                problem_context@.len() as int,
            ),
            r matches Ok(v) && 0 <= v <= COMPONENT_LIMIT,
    {
        let len: usize = problem_context.unicode_len();
        let adjustment: i64 = if len == 0 {
            0
        } else {
            let e: u32 = decimal_order_u128(len as u128);
            (e as i64) * NANO
        };
        let base: i64 = observer.base_deficit();
        Ok(base * NANO + adjustment)
    }

    /// Calculate S-time: the precision-coordination distance plus tenfold
    /// emotional distortion, in nanos.  The target precision is given as a
    /// power-of-ten exponent (the target is `10^exp`).  Succeeds exactly
    /// when the result is representable.
    pub fn calculate_s_time(&self, target_precision_exp: i32, emotional_factor: i64) -> (r:
        SEntropyResult<i64>)
        ensures
            r is Ok <==> -COMPONENT_LIMIT <= spec_time_component(
                target_precision_exp as int,
                emotional_factor as int,
            ) <= COMPONENT_LIMIT,
            r matches Ok(v) ==> v == spec_time_component(
                target_precision_exp as int,
                emotional_factor as int,
            ),
            r matches Err(e) ==> e matches SEntropyError::SEntropyCalculation { .. },
    {
        let precision_distance: i64 = if target_precision_exp <= -30 {
            10_000_000
        } else {
            ((target_precision_exp as i64) + 30) * NANO
        };
        let total: i128 = (precision_distance as i128) + 10 * (emotional_factor as i128);
        if -(COMPONENT_LIMIT as i128) <= total && total <= COMPONENT_LIMIT as i128 {
            Ok(total as i64)
        } else {
            Err(SEntropyError::s_entropy_calculation("s-time out of range".to_owned()))
        }
    }

    /// Calculate S-entropy: the endpoint navigation distance plus the
    /// oscillation accessibility factor, in nanos.  Succeeds exactly when
    /// the result is representable.
    pub fn calculate_s_entropy_endpoint(&self, problem_complexity: i64, accessibility: i64) -> (r:
        SEntropyResult<i64>)
        ensures
            r is Ok <==> -COMPONENT_LIMIT <= spec_entropy_component(
                problem_complexity as int,
                accessibility as int,
            ) <= COMPONENT_LIMIT,
            r matches Ok(v) ==> v == spec_entropy_component(
                problem_complexity as int,
                accessibility as int,
            ),
            r matches Err(e) ==> e matches SEntropyError::SEntropyCalculation { .. },
    {
        let navigation_distance: i128 = if accessibility > 900_000_000 {
            10_000_000
        } else {
            proof {
                assert(((NANO as int) - accessibility) * problem_complexity
                    < 100_000_000_000_000_000_000_000_000_000_000_000_000int && ((NANO as int)
                    - accessibility) * problem_complexity
                    > -100_000_000_000_000_000_000_000_000_000_000_000_000int) by (nonlinear_arith)
                    requires
                        i64::MIN <= problem_complexity <= i64::MAX,
                        i64::MIN <= accessibility <= i64::MAX,
                        NANO == 1_000_000_000,
                ;
            }
            let p: i128 = ((NANO as i128) - (accessibility as i128)) * (problem_complexity as i128);
            proof {
                lemma_tdiv_bounds(p as int, NANO as int);
            }
            tdiv_i128(p, NANO as i128)
        };
        let oscillation_factor: i128 = if accessibility > 500_000_000 {
            if accessibility > NANO {
                let e: u32 = decimal_order_u128(accessibility as u128);
                proof {
                    lemma_order_at_least(accessibility as int, e as nat);
                }
                ((e as i128) - 9) * (NANO as i128)
            } else {
                0
            }
        } else {
            ((NANO as i128) - (accessibility as i128)) * 100
        };
        let total: i128 = navigation_distance + oscillation_factor;
        if -(COMPONENT_LIMIT as i128) <= total && total <= COMPONENT_LIMIT as i128 {
            Ok(total as i64)
        } else {
            Err(SEntropyError::s_entropy_calculation("s-entropy endpoint out of range".to_owned()))
        }
    }

    /// Attempt observer-process integration: start ten percent above the
    /// target and run at most ten decay steps of ten percent each, stopping
    /// early once the target is reached.  The outcome is a function of the
    /// target alone; the tracker absorbs the attempt.
    pub fn attempt_integration(&mut self, target_separation: i64) -> (r: SEntropyResult<bool>)
        requires
            old(self).wf(),
            -COMPONENT_LIMIT <= target_separation <= COMPONENT_LIMIT,
        ensures
            final(self).wf(),
            r matches Ok(success) && {
                let (achieved, spec_success) = spec_attempt(target_separation as int);
                &&& success == spec_success
                &&& (success <==> target_separation >= 0)
                &&& final(self).spec_separation() == achieved
                &&& final(self).spec_attempts().len() == old(self).spec_attempts().len() + 1
                &&& final(self).spec_attempts().take(old(self).spec_attempts().len() as int)
                    =~= old(self).spec_attempts()
                &&& {
                    let a = final(self).spec_attempts().last();
                    &&& a.target_separation == target_separation
                    &&& a.achieved_separation == achieved
                    &&& a.successful == success
                    &&& a.method@ == "tri_dimensional_alignment"@
                }
                &&& final(self).spec_success_count() == old(self).spec_success_count() + if success {
                    1int
                } else {
                    0int
                }
                &&& final(self).spec_success_rate() == spec_tracker_rate(
                    final(self).spec_success_count(),
                    final(self).spec_attempts().len() as int,
                )
                &&& (success ==> final(self).spec_last_success() is Some)
                &&& (!success ==> final(self).spec_last_success() == old(
                    self,
                ).spec_last_success())
            },
            final(self).spec_history() =~= old(self).spec_history(),
            final(self).spec_cache() =~= old(self).spec_cache(),
            final(self).spec_precision() == old(self).spec_precision(),
    {
        proof {
            lemma_tdiv_bounds(11 * (target_separation as int), 10);
        }
        let a0: i128 = tdiv_i128(11 * (target_separation as i128), 10);
        let ghost t = target_separation as int;
        let mut achieved: i128 = a0;
        let mut reached: bool = false;
        let mut i: usize = 0;
        while i < 10
            invariant
                i <= 10,
                t == target_separation as int,
                -1_200_000_000_000_000_000 <= achieved <= 1_200_000_000_000_000_000,
                -COMPONENT_LIMIT <= t <= COMPONENT_LIMIT,
                reached ==> (achieved as int, true) == spec_attempt(t),
                reached ==> achieved <= t,
                !reached ==> decay_run(achieved as int, t, (10 - i) as nat) == spec_attempt(t),
            decreases 10 - i,
        {
            if !reached {
                proof {
                    lemma_tdiv_bounds(9 * (achieved as int), 10);
                }
                let a2: i128 = tdiv_i128(9 * achieved, 10);
                proof {
                    assert(a2 == decay_step(achieved as int));
                    assert(decay_run(achieved as int, t, (10 - i) as nat) == (if a2 as int <= t {
                        (a2 as int, true)
                    } else {
                        decay_run(a2 as int, t, (10 - (i + 1)) as nat)
                    }));
                }
                achieved = a2;
                if achieved <= target_separation as i128 {
                    reached = true;
                }
            }
            i = i + 1;
        }
        let successful: bool = achieved <= target_separation as i128;
        proof {
            if !reached {
                assert(decay_run(achieved as int, t, 0) == spec_attempt(t));
            }
            lemma_attempt_convergence(t);
        }
        let achieved64: i64 = achieved as i64;
        let attempt = IntegrationAttempt {
            id: fresh_id(),
            target_separation,
            achieved_separation: achieved64,
            successful,
            method: "tri_dimensional_alignment".to_owned(),
            attempted_at: now_seconds(),
        };
        let ghost old_attempts = self.integration_tracker.integration_attempts@;
        self.integration_tracker.separation_distance = achieved64;
        self.integration_tracker.integration_attempts.push(attempt);
        proof {
            assert(self.integration_tracker.integration_attempts@.drop_last() =~= old_attempts);
            assert(count_successful(self.integration_tracker.integration_attempts@)
                == count_successful(old_attempts) + if successful {
                1int
            } else {
                0int
            });
        }
        let total: u64 = self.integration_tracker.integration_attempts.len() as u64;
        if successful {
            self.integration_tracker.success_count = self.integration_tracker.success_count + 1;
            self.integration_tracker.last_success = Some(now_seconds());
        }
        let rate: i64 = rate_nanos_of(self.integration_tracker.success_count, total);
        self.integration_tracker.success_rate = rate;
        proof {
            assert(self.integration_tracker.integration_attempts@.take(old_attempts.len() as int)
                =~= old_attempts);
        }
        Ok(successful)
    }
}

/// One aligned output component: eight tenths of its own raw input plus one
/// tenth of each of the other two, rounded toward zero to whole nanos.
pub open spec fn spec_aligned(own: int, other1: int, other2: int) -> int {
    tdiv(8 * own + other1 + other2, 10)
}

/// First index in the cache holding `key`, or `-1` if absent.
pub open spec fn spec_find_key(s: Seq<(AlignmentKey, SEntropyCoordinate)>, key: AlignmentKey) -> int
    decreases s.len(),
{
    if s.len() == 0 {
        -1
    } else if s[0].0 == key {
        0
    } else {
        let r = spec_find_key(s.subrange(1, s.len() as int), key);
        if r == -1 {
            -1
        } else {
            r + 1
        }
    }
}

/// `spec_find_key` names the first matching index, and `-1` means no match.
pub proof fn lemma_find_key(s: Seq<(AlignmentKey, SEntropyCoordinate)>, key: AlignmentKey)
    ensures
        spec_find_key(s, key) == -1 ==> forall|i: int| 0 <= i < s.len() ==> s[i].0 != key,
        spec_find_key(s, key) != -1 ==> {
            let r = spec_find_key(s, key);
            &&& 0 <= r < s.len()
            &&& s[r].0 == key
            &&& forall|i: int| 0 <= i < r ==> s[i].0 != key
        },
    decreases s.len(),
{
    if s.len() == 0 {
    } else if s[0].0 == key {
    } else {
        let tail = s.subrange(1, s.len() as int);
        lemma_find_key(tail, key);
        assert(forall|i: int| 1 <= i < s.len() ==> s[i] == tail[i - 1]);
    }
}

/// Insert into the cache with last-write-wins semantics: replace the entry
/// holding the key if one exists, append otherwise.
pub open spec fn spec_cache_insert(
    s: Seq<(AlignmentKey, SEntropyCoordinate)>,
    key: AlignmentKey,
    c: SEntropyCoordinate,
) -> Seq<(AlignmentKey, SEntropyCoordinate)> {
    let r = spec_find_key(s, key);
    if r == -1 {
        s.push((key, c))
    } else {
        s.update(r, (key, c))
    }
}

/// Find the index of the entry holding `key`, if any.
fn find_key_index(cache: &Vec<(AlignmentKey, SEntropyCoordinate)>, key: AlignmentKey) -> (r: Option<
    usize,
>)
    ensures
        match r {
            Some(i) => i < cache@.len() && spec_find_key(cache@, key) == i,
            None => spec_find_key(cache@, key) == -1,
        },
{
    let n: usize = cache.len();
    let mut i: usize = 0;
    while i < n
        invariant
            i <= n,
            n == cache@.len(),
            forall|j: int| 0 <= j < i ==> cache@[j].0 != key,
        decreases n - i,
    {
        if cache[i].0 == key {
            proof {
                lemma_find_key(cache@, key);
                let r = spec_find_key(cache@, key);
                assert(cache@[i as int].0 == key);
                assert(r != -1);
                if r < i {
                    assert(cache@[r].0 != key);
                }
                if r > i {
                    assert(cache@[i as int].0 != key);
                }
            }
            return Some(i);
        }
        i = i + 1;
    }
    proof {
        lemma_find_key(cache@, key);
        let r = spec_find_key(cache@, key);
        if r != -1 {
            assert(cache@[r].0 != key);
        }
    }
    None
}

/// Number of cache entries whose coordinate carries the expected marker.
pub open spec fn count_matching_coords(s: Seq<(AlignmentKey, SEntropyCoordinate)>) -> int
    decreases s.len(),
{
    if s.len() == 0 {
        0
    } else {
        count_matching_coords(s.drop_last()) + if s.last().1.memorial_significance@
            == marker_text() {
            1int
        } else {
            0int
        }
    }
}

/// Number of measurements that carry the expected marker.
pub open spec fn count_matching_measurements(s: Seq<SEntropyMeasurement>) -> int
    decreases s.len(),
{
    if s.len() == 0 {
        0
    } else {
        count_matching_measurements(s.drop_last()) + if s.last().memorial_significance@
            == marker_text() {
            1int
        } else {
            0int
        }
    }
}

/// The validation report's rate: matching over total, in nanos, and one
/// whole unit for an empty scan.
pub open spec fn spec_report_rate(matching: int, total: int) -> int {
    if total == 0 {
        NANO as int
    } else {
        matching * NANO / total
    }
}

/// The report rate reaches one whole unit exactly when every scanned entry
/// matches.
pub proof fn lemma_report_rate_full(matching: int, total: int)
    requires
        0 <= matching <= total,
    ensures
        spec_report_rate(matching, total) == NANO <==> matching == total,
        0 <= spec_report_rate(matching, total) <= NANO,
{
    if total == 0 {
    } else {
        if matching == total {
            vstd::arithmetic::div_mod::lemma_div_multiples_vanish(NANO as int, total);
            assert(total * NANO == NANO * total) by (nonlinear_arith);
        } else {
            assert(matching * NANO < total * NANO) by (nonlinear_arith)
                requires
                    matching < total,
                    NANO >= 1,
            ;
            vstd::arithmetic::div_mod::lemma_multiply_divide_lt(
                matching * NANO,
                total,
                NANO as int,
            );
        }
        assert(matching * NANO <= total * NANO) by (nonlinear_arith)
            requires
                matching <= total,
                NANO >= 0,
        ;
        vstd::arithmetic::div_mod::lemma_div_is_ordered(matching * NANO, total * NANO, total);
        vstd::arithmetic::div_mod::lemma_div_multiples_vanish(NANO as int, total);
        assert(total * NANO == NANO * total) by (nonlinear_arith);
        assert(matching * NANO >= 0) by (nonlinear_arith)
            requires
                matching >= 0,
                NANO >= 0,
        ;
        vstd::arithmetic::div_mod::lemma_div_pos_is_pos(matching * NANO, total);
    }
}

/// Marker validation report over the coordinate cache and the measurement
/// history.
#[derive(Debug, Clone)]
pub struct MemorialValidationReport {
    /// Total number of entries scanned.
    pub total_validations: usize,
    /// Number of entries carrying the expected marker.
    pub successful_validations: usize,
    /// Rate of matching entries, in nanos; one whole unit for an empty scan.
    pub success_rate: i64,
    /// Validation timestamp, Unix seconds.
    pub validated_at: i64,
}

/// Counting one more cache entry extends the matching count by its match.
proof fn lemma_count_coords_step(s: Seq<(AlignmentKey, SEntropyCoordinate)>, i: int)
    requires
        0 <= i < s.len(),
    ensures
        count_matching_coords(s.take(i + 1)) == count_matching_coords(s.take(i)) + if s[i].1
            .memorial_significance@ == marker_text() {
            1int
        } else {
            0int
        },
{
    assert(s.take(i + 1).drop_last() =~= s.take(i));
    assert(s.take(i + 1).last() == s[i]);
}

/// Counting one more measurement extends the matching count by its match.
proof fn lemma_count_measurements_step(s: Seq<SEntropyMeasurement>, i: int)
    requires
        0 <= i < s.len(),
    ensures
        count_matching_measurements(s.take(i + 1)) == count_matching_measurements(s.take(i))
            + if s[i].memorial_significance@ == marker_text() {
            1int
        } else {
            0int
        },
{
    assert(s.take(i + 1).drop_last() =~= s.take(i));
    assert(s.take(i + 1).last() == s[i]);
}

impl SEntropyMeasurement {
    /// An exact copy of this measurement, marker included.
    pub fn duplicate(&self) -> (m: Self)
        ensures
            m == *self,
    {
        SEntropyMeasurement {
            id: self.id,
            s_knowledge: self.s_knowledge,
            s_time: self.s_time,
            s_entropy: self.s_entropy,
            total_magnitude: self.total_magnitude,
            observer_sophistication: self.observer_sophistication,
            precision: self.precision,
            optimal_integration: self.optimal_integration,
            memorial_significance: self.memorial_significance.clone(),
            measured_at: self.measured_at,
        }
    }
}

impl crate::traits::MemorialSignificant for SEntropyMeasurement {
    open spec fn spec_marker(&self) -> Seq<char> {
        self.memorial_significance@
    }

    fn memorial_significance(&self) -> (s: &str) {
        self.memorial_significance.as_str()
    }
}

impl SEntropyEngine {
    /// Perform tri-dimensional alignment: apply the fixed linear transform
    /// (eight tenths own weight, one tenth each cross weight) to the raw
    /// triple, build a coordinate from it, validate its marker, and cache it
    /// under the raw inputs and the current one-second bucket, last write
    /// winning on key collision.
    pub fn align_tri_dimensional(&mut self, s_knowledge: i64, s_time: i64, s_entropy: i64) -> (r:
        SEntropyResult<SEntropyCoordinate>)
        requires
            old(self).wf(),
            -COMPONENT_LIMIT <= s_knowledge <= COMPONENT_LIMIT,
            -COMPONENT_LIMIT <= s_time <= COMPONENT_LIMIT,
            -COMPONENT_LIMIT <= s_entropy <= COMPONENT_LIMIT,
        ensures
            final(self).wf(),
            r is Ok,
            r matches Ok(c) ==> {
                &&& c.s_knowledge == spec_aligned(
                    s_knowledge as int,
                    s_time as int,
                    s_entropy as int,
                )
                &&& c.s_time == spec_aligned(s_time as int, s_knowledge as int, s_entropy as int)
                &&& c.s_entropy == spec_aligned(
                    s_entropy as int,
                    s_knowledge as int,
                    s_time as int,
                )
                &&& c.wf()
                &&& c.memorial_significance@ == marker_text()
                &&& exists|b: i64|
                    final(self).spec_cache() == spec_cache_insert(
                        old(self).spec_cache(),
                        AlignmentKey { s_knowledge, s_time, s_entropy, bucket: b },
                        c,
                    )
            },
            final(self).spec_history() =~= old(self).spec_history(),
            final(self).spec_attempts() =~= old(self).spec_attempts(),
            final(self).spec_separation() == old(self).spec_separation(),
            final(self).spec_success_count() == old(self).spec_success_count(),
            final(self).spec_success_rate() == old(self).spec_success_rate(),
            final(self).spec_last_success() == old(self).spec_last_success(),
            final(self).spec_precision() == old(self).spec_precision(),
    {
        proof {
            lemma_tdiv_bounds(8 * (s_knowledge as int) + s_time as int + s_entropy as int, 10);
            lemma_tdiv_bounds(8 * (s_time as int) + s_knowledge as int + s_entropy as int, 10);
            lemma_tdiv_bounds(8 * (s_entropy as int) + s_knowledge as int + s_time as int, 10);
        }
        let ak: i128 = tdiv_i128(
            8 * (s_knowledge as i128) + (s_time as i128) + (s_entropy as i128),
            10,
        );
        let at: i128 = tdiv_i128(
            8 * (s_time as i128) + (s_knowledge as i128) + (s_entropy as i128),
            10,
        );
        let ae: i128 = tdiv_i128(
            8 * (s_entropy as i128) + (s_knowledge as i128) + (s_time as i128),
            10,
        );
        let aligned_coord = SEntropyCoordinate::new(ak as i64, at as i64, ae as i64);
        if !aligned_coord.validates_memorial_significance() {
            return Err(
                SEntropyError::memorial_significance(
                    self.expected_significance.clone(),
                    aligned_coord.memorial_significance.clone(),
                ),
            );
        }
        let bucket: i64 = now_seconds();
        let key = AlignmentKey { s_knowledge, s_time, s_entropy, bucket };
        let cached = aligned_coord.duplicate();
        let ghost old_cache = self.coordinate_cache@;
        match find_key_index(&self.coordinate_cache, key) {
            Some(i) => {
                self.coordinate_cache.set(i, (key, cached));
                proof {
                    lemma_find_key(old_cache, key);
                    assert(old_cache[i as int].0 == key);
                    assert forall|p: int, q: int|
                        0 <= p < q < self.coordinate_cache@.len() implies self.coordinate_cache@[p].0
                        != self.coordinate_cache@[q].0 by {
                        assert(old_cache[p].0 != old_cache[q].0);
                    }
                }
            },
            None => {
                self.coordinate_cache.push((key, cached));
                proof {
                    lemma_find_key(old_cache, key);
                    assert forall|p: int, q: int|
                        0 <= p < q < self.coordinate_cache@.len() implies self.coordinate_cache@[p].0
                        != self.coordinate_cache@[q].0 by {
                        if q < old_cache.len() {
                            assert(old_cache[p].0 != old_cache[q].0);
                        } else {
                            assert(old_cache[p].0 != key);
                        }
                    }
                }
            },
        }
        proof {
            assert(self.coordinate_cache@ =~= spec_cache_insert(old_cache, key, cached));
            assert(self.coordinate_cache@ == spec_cache_insert(
                old(self).spec_cache(),
                AlignmentKey { s_knowledge, s_time, s_entropy, bucket },
                aligned_coord,
            ));
            assert(exists|b: i64|
                self.coordinate_cache@ == spec_cache_insert(
                    old(self).spec_cache(),
                    AlignmentKey { s_knowledge, s_time, s_entropy, bucket: b },
                    aligned_coord,
                ));
        }
        Ok(aligned_coord)
    }

    /// Snapshot of the integration tracker, with whether the current
    /// separation lies strictly below the precision threshold.
    pub fn get_integration_stats(&self) -> (r: SEntropyResult<IntegrationStats>)
        requires
            self.wf(),
        ensures
            r matches Ok(s) && {
                &&& s.current_separation == self.spec_separation()
                &&& s.success_rate == self.spec_success_rate()
                &&& s.total_attempts == self.spec_attempts().len()
                &&& s.last_success == self.spec_last_success()
                &&& s.optimal_integration_achieved == self.spec_precision().spec_is_optimal(
                    self.spec_separation(),
                )
            },
    {
        let separation = self.integration_tracker.separation_distance;
        let optimal = if separation < 0 {
            proof {
                let e = self.precision.spec_threshold_exponent();
                crate::nanos::lemma_pow10_pos(e);
                assert((separation as int) * crate::nanos::pow10(e) <= separation as int)
                    by (nonlinear_arith)
                    requires
                        separation < 0,
                        crate::nanos::pow10(e) >= 1,
                ;
            }
            true
        } else {
            self.precision.is_optimal(separation)
        };
        Ok(
            IntegrationStats {
                current_separation: separation,
                success_rate: self.integration_tracker.success_rate,
                total_attempts: self.integration_tracker.integration_attempts.len(),
                last_success: self.integration_tracker.last_success,
                optimal_integration_achieved: optimal,
            },
        )
    }

    /// Generate a comprehensive measurement: compute the three components,
    /// take the magnitude, classify convergence at the engine's precision,
    /// stamp the record with the expected marker, and append it to the
    /// history, evicting the oldest record beyond one thousand.
    pub fn generate_measurement(
        &mut self,
        problem_context: &str,
        observer: ObserverSophistication,
        temporal_precision_exp: i32,
        emotional_factor: i64,
        problem_complexity: i64,
        accessibility: i64,
    ) -> (r: SEntropyResult<SEntropyMeasurement>)
        requires
            old(self).wf(),
        ensures
            final(self).wf(),
            r is Ok <==> {
                &&& -COMPONENT_LIMIT <= spec_time_component(
                    temporal_precision_exp as int,
                    emotional_factor as int,
                ) <= COMPONENT_LIMIT
                &&& -COMPONENT_LIMIT <= spec_entropy_component(
                    problem_complexity as int,
                    accessibility as int,
                ) <= COMPONENT_LIMIT
            },
            r matches Ok(m) ==> {
                &&& m.s_knowledge == spec_knowledge_component(
                    observer,
                    problem_context@.len() as int,
                )
                &&& m.s_time == spec_time_component(
                    temporal_precision_exp as int,
                    emotional_factor as int,
                )
                &&& m.s_entropy == spec_entropy_component(
                    problem_complexity as int,
                    accessibility as int,
                )
                &&& m.total_magnitude >= 0
                &&& m.total_magnitude * m.total_magnitude <= m.s_knowledge * m.s_knowledge
                    + m.s_time * m.s_time + m.s_entropy * m.s_entropy < (m.total_magnitude + 1) * (
                m.total_magnitude + 1)
                &&& m.optimal_integration == old(self).spec_precision().spec_is_optimal(
                    m.total_magnitude as int,
                )
                &&& m.observer_sophistication == observer
                &&& m.precision == old(self).spec_precision()
                &&& m.memorial_significance@ == marker_text()
                &&& final(self).spec_history() =~= if old(self).spec_history().len() < 1000 {
                    old(self).spec_history().push(m)
                } else {
                    old(self).spec_history().skip(1).push(m)
                }
                &&& final(self).spec_history().len() <= 1000
            },
            r matches Err(e) ==> e matches SEntropyError::SEntropyCalculation { .. },
            r is Err ==> final(self).spec_history() =~= old(self).spec_history(),
            final(self).spec_cache() =~= old(self).spec_cache(),
            final(self).spec_attempts() =~= old(self).spec_attempts(),
            final(self).spec_separation() == old(self).spec_separation(),
            final(self).spec_success_count() == old(self).spec_success_count(),
            final(self).spec_success_rate() == old(self).spec_success_rate(),
            final(self).spec_last_success() == old(self).spec_last_success(),
            final(self).spec_precision() == old(self).spec_precision(),
    {
        let s_knowledge = match self.calculate_s_knowledge(problem_context, observer) {
            Ok(v) => v,
            Err(e) => { return Err(e) },
        };
        let s_time = match self.calculate_s_time(temporal_precision_exp, emotional_factor) {
            Ok(v) => v,
            Err(e) => { return Err(e) },
        };
        let s_entropy = match self.calculate_s_entropy_endpoint(problem_complexity, accessibility) {
            Ok(v) => v,
            Err(e) => { return Err(e) },
        };
        let total_magnitude = match calculate_separation_distance(s_knowledge, s_time, s_entropy) {
            Ok(m) => m,
            Err(e) => { return Err(e) },
        };
        let optimal_integration = self.precision.is_optimal(total_magnitude);
        let measurement = SEntropyMeasurement {
            id: fresh_id(),
            s_knowledge,
            s_time,
            s_entropy,
            total_magnitude,
            observer_sophistication: observer,
            precision: self.precision,
            optimal_integration,
            memorial_significance: memorial_significance_marker().to_owned(),
            measured_at: now_seconds(),
        };
        let ghost old_history = self.measurement_history@;
        self.measurement_history.push(measurement.duplicate());
        if self.measurement_history.len() > 1000 {
            self.measurement_history.remove(0);
            proof {
                assert(self.measurement_history@ =~= old_history.skip(1).push(measurement));
            }
        }
        Ok(measurement)
    }

    /// Scan the coordinate cache and the measurement history, counting the
    /// entries that carry the expected marker; the rate reaches one whole
    /// unit exactly when every entry matches (and on an empty scan).
    pub fn validate_all_memorial_significance(&self) -> (r: SEntropyResult<
        MemorialValidationReport,
    >)
        requires
            self.wf(),
            self.spec_cache().len() + self.spec_history().len() <= usize::MAX,
        ensures
            r matches Ok(report) && {
                &&& report.total_validations == self.spec_cache().len()
                    + self.spec_history().len()
                &&& report.successful_validations == count_matching_coords(self.spec_cache())
                    + count_matching_measurements(self.spec_history())
                &&& report.success_rate == spec_report_rate(
                    report.successful_validations as int,
                    report.total_validations as int,
                )
                &&& (report.success_rate == NANO <==> report.successful_validations
                    == report.total_validations)
            },
    {
        let cache_len: usize = self.coordinate_cache.len();
        let history_len: usize = self.measurement_history.len();
        let mut successful: usize = 0;
        let mut i: usize = 0;
        proof {
            assert(self.spec_cache().take(0) =~= Seq::<(
                AlignmentKey,
                SEntropyCoordinate,
            )>::empty());
        }
        while i < cache_len
            invariant
                i <= cache_len,
                cache_len == self.spec_cache().len(),
                successful <= i,
                successful as int == count_matching_coords(self.spec_cache().take(i as int)),
            decreases cache_len - i,
        {
            proof {
                lemma_count_coords_step(self.spec_cache(), i as int);
            }
            if self.coordinate_cache[i].1.validates_memorial_significance() {
                successful = successful + 1;
            }
            i = i + 1;
        }
        proof {
            assert(self.spec_cache().take(cache_len as int) =~= self.spec_cache());
            assert(self.spec_history().take(0) =~= Seq::<SEntropyMeasurement>::empty());
        }
        let ghost cache_matching = count_matching_coords(self.spec_cache());
        proof {
            lemma_count_matching_coords_bound(self.spec_cache());
        }
        let mut j: usize = 0;
        while j < history_len
            invariant
                j <= history_len,
                history_len == self.spec_history().len(),
                cache_matching == count_matching_coords(self.spec_cache()),
                successful as int == cache_matching + count_matching_measurements(
                    self.spec_history().take(j as int),
                ),
                successful <= self.spec_cache().len() + j,
                self.spec_cache().len() + self.spec_history().len() <= usize::MAX,
            decreases history_len - j,
        {
            proof {
                lemma_count_measurements_step(self.spec_history(), j as int);
                lemma_count_matching_coords_bound(self.spec_cache());
            }
            let matches_marker = {
                let m = &self.measurement_history[j];
                m.memorial_significance.as_str().to_owned()
                    == memorial_significance_marker().to_owned()
            };
            if matches_marker {
                successful = successful + 1;
            }
            j = j + 1;
        }
        proof {
            assert(self.spec_history().take(history_len as int) =~= self.spec_history());
            lemma_count_matching_coords_bound(self.spec_cache());
            lemma_count_matching_measurements_bound(self.spec_history());
        }
        let total: usize = cache_len + history_len;
        let rate: i64 = if total == 0 {
            NANO
        } else {
            proof {
                lemma_report_rate_full(successful as int, total as int);
            }
            rate_report_of(successful, total)
        };
        proof {
            lemma_report_rate_full(successful as int, total as int);
        }
        Ok(
            MemorialValidationReport {
                total_validations: total,
                successful_validations: successful,
                success_rate: rate,
                validated_at: now_seconds(),
            },
        )
    }
}

/// The matching count never exceeds the cache length.
proof fn lemma_count_matching_coords_bound(s: Seq<(AlignmentKey, SEntropyCoordinate)>)
    ensures
        0 <= count_matching_coords(s) <= s.len(),
    decreases s.len(),
{
    if s.len() > 0 {
        lemma_count_matching_coords_bound(s.drop_last());
    }
}

/// The matching count never exceeds the history length.
proof fn lemma_count_matching_measurements_bound(s: Seq<SEntropyMeasurement>)
    ensures
        0 <= count_matching_measurements(s) <= s.len(),
    decreases s.len(),
{
    if s.len() > 0 {
        lemma_count_matching_measurements_bound(s.drop_last());
    }
}

/// Matching over total, in nanos, rounded down; at most one whole unit.
fn rate_report_of(matching: usize, total: usize) -> (r: i64)
    requires
        matching <= total,
        total >= 1,
    ensures
        r == matching * NANO / (total as int),
        0 <= r <= NANO,
{
    proof {
        assert((matching as int) * (NANO as int)
            < 340_282_366_920_938_463_463_374_607_431_768_211_455int) by (nonlinear_arith)
            requires
                0 <= matching <= 0xFFFF_FFFF_FFFF_FFFFu64 as int,
                NANO == 1_000_000_000,
        ;
    }
    let r: u128 = ((matching as u128) * (NANO as u128)) / (total as u128);
    proof {
        lemma_report_rate_full(matching as int, total as int);
    }
    r as i64
}

/// Successes over total, in nanos, rounded down; at most one whole unit.
pub fn rate_nanos_of(successes: u64, total: u64) -> (r: i64)
    requires
        successes <= total,
        total >= 1,
    ensures
        r == successes * NANO / (total as int),
        0 <= r <= NANO,
{
    proof {
        assert((successes as int) * (NANO as int)
            < 340_282_366_920_938_463_463_374_607_431_768_211_455int) by (nonlinear_arith)
            requires
                0 <= successes <= 0xFFFF_FFFF_FFFF_FFFFu64,
                NANO == 1_000_000_000,
        ;
    }
    let r: u128 = ((successes as u128) * (NANO as u128)) / (total as u128);
    proof {
        let s = successes as int;
        let t = total as int;
        assert(s * NANO <= t * NANO) by (nonlinear_arith)
            requires
                s <= t,
                NANO >= 0,
        ;
        vstd::arithmetic::div_mod::lemma_div_is_ordered(s * NANO, t * NANO, t);
        vstd::arithmetic::div_mod::lemma_div_multiples_vanish(NANO as int, t);
        assert((t * NANO) / t == NANO);
        assert(s * NANO >= 0) by (nonlinear_arith)
            requires
                s >= 0,
                NANO >= 0,
        ;
        vstd::arithmetic::div_mod::lemma_div_pos_is_pos(s * NANO, t);
    }
    r as i64
}

} // verus!
