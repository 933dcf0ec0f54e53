//! Engine-wide laws, stated and proved once, on top of the operation
//! contracts.

use vstd::prelude::*;
use crate::coordinate::SEntropyCoordinate;
use crate::engine::{spec_aligned, spec_cache_insert, spec_find_key, SEntropyMeasurement};
use crate::nanos::pow10;
use crate::types::SEntropyPrecision;

verus! {

/// FIFO eviction: appending a measurement to a full history drops exactly
/// the oldest record, keeps every other record in order, and leaves the
/// length at the cap.  This is the shape `generate_measurement` gives the
/// history whenever it is full.
pub proof fn lemma_history_fifo(h: Seq<SEntropyMeasurement>, m: SEntropyMeasurement)
    requires
        h.len() == 1000,
    ensures
        ({
            let h2 = h.skip(1).push(m);
            &&& h2.len() == 1000
            &&& h2.last() == m
            &&& forall|k: int| 0 <= k < 999 ==> h2[k] == h[k + 1]
        }),
{
}

/// Alignment is deterministic: two coordinates aligned from identical raw
/// inputs carry identical component values.  Together with the cache-insert
/// law below, aligning twice with identical inputs in the same timestamp
/// bucket leaves a single cache entry holding the later coordinate.
pub proof fn lemma_align_deterministic(
    k: int,
    t: int,
    e: int,
    c1: SEntropyCoordinate,
    c2: SEntropyCoordinate,
)
    requires
        c1.s_knowledge == spec_aligned(k, t, e),
        c1.s_time == spec_aligned(t, k, e),
        c1.s_entropy == spec_aligned(e, k, t),
        c2.s_knowledge == spec_aligned(k, t, e),
        c2.s_time == spec_aligned(t, k, e),
        c2.s_entropy == spec_aligned(e, k, t),
    ensures
        c1.s_knowledge == c2.s_knowledge,
        c1.s_time == c2.s_time,
        c1.s_entropy == c2.s_entropy,
{
}

/// Last write wins: inserting under a key already present replaces that
/// entry in place, leaving the cache length unchanged.
pub proof fn lemma_cache_insert_collision(
    s: Seq<(crate::engine::AlignmentKey, SEntropyCoordinate)>,
    key: crate::engine::AlignmentKey,
    c: SEntropyCoordinate,
)
    requires
        spec_find_key(s, key) != -1,
    ensures
        spec_cache_insert(s, key, c).len() == s.len(),
        0 <= spec_find_key(s, key) < s.len(),
        spec_cache_insert(s, key, c)[spec_find_key(s, key)] == (key, c),
{
    crate::engine::lemma_find_key(s, key);
}

/// The magnitude law: a coordinate's total magnitude is the floor square
/// root of its summed squared components, and that value is unique, so the
/// magnitude differs from the real root by less than one nano and is never
/// stale with respect to the components.
pub proof fn lemma_magnitude_unique(c: SEntropyCoordinate, m1: int, m2: int)
    requires
        m1 >= 0,
        m2 >= 0,
        m1 * m1 <= c.magnitude_sq() < (m1 + 1) * (m1 + 1),
        m2 * m2 <= c.magnitude_sq() < (m2 + 1) * (m2 + 1),
    ensures
        m1 == m2,
{
    crate::nanos::lemma_isqrt_unique(c.magnitude_sq(), m1, m2);
}

/// The optimality boundary is strict: at standard precision a magnitude
/// exactly equal to the threshold (one millionth, a thousand nanos) is not
/// optimal, while one nano below it is.
pub proof fn lemma_optimal_boundary()
    ensures
        !SEntropyPrecision::Standard.spec_is_optimal(1000),
        SEntropyPrecision::Standard.spec_is_optimal(999),
{
    assert(pow10(6) == 1_000_000int) by {
        reveal_with_fuel(pow10, 7);
    }
}

} // verus!
