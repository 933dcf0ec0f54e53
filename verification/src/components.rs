//! The three component calculators and their shared semantics.
//!
//! Each scalar is a count of nanos.  Logarithms are taken at whole decimal
//! orders of magnitude (the unique `e` with `10^e <= n < 10^(e + 1)`), square
//! roots at floor precision, and products are rounded toward zero to whole
//! nanos, so every function here has an exact integer statement.

use vstd::prelude::*;
use vstd::string::StrSliceExecFns;
use crate::error::SEntropyResult;
use crate::nanos::{
    decimal_order, floor_sqrt, isqrt_u128, lemma_tdiv_bounds, order_of, tdiv,
    tdiv_i128,
};
use crate::types::ObserverSophistication;
use crate::{COMPONENT_LIMIT, NANO};

verus! {

/// S-knowledge: the observer's base deficit plus the decimal order of the
/// context length (zero for an empty context), in nanos.
pub open spec fn spec_knowledge_component(observer: ObserverSophistication, len: int) -> int {
    observer.spec_base_deficit() * NANO + if len >= 1 {
        decimal_order(len) * NANO
    } else {
        0
    }
}

/// Ultra-precision temporal coordination distance, in nanos: `0.01` at or
/// below the ultra target `10^-30`, and otherwise the decimal-order gap
/// between the target and the ultra target.
pub open spec fn spec_precision_distance(target_exp: int) -> int {
    if target_exp <= -30 {
        10_000_000
    } else {
        (target_exp + 30) * NANO
    }
}

/// S-time: precision distance plus tenfold emotional distortion, in nanos.
pub open spec fn spec_time_component(target_exp: int, emotional: int) -> int {
    spec_precision_distance(target_exp) + 10 * emotional
}

/// Entropy endpoint navigation distance, in nanos: `0.01` above `0.9`
/// accessibility, else `(1 - accessibility) * complexity`.
pub open spec fn spec_navigation_distance(complexity: int, accessibility: int) -> int {
    if accessibility > 900_000_000 {
        10_000_000
    } else {
        tdiv((NANO - accessibility) * complexity, NANO as int)
    }
}

/// Oscillation accessibility factor, in nanos.  Above `0.5` accessibility it
/// is the whole decimal orders of magnitude by which accessibility exceeds
/// one (zero for accessibility up to one); at or below `0.5` it is
/// `(1 - accessibility) * 100`.
pub open spec fn spec_oscillation_factor(accessibility: int) -> int {
    if accessibility > 500_000_000 {
        if accessibility > NANO {
            (decimal_order(accessibility) - 9) * NANO
        } else {
            0
        }
    } else {
        (NANO - accessibility) * 100
    }
}

/// S-entropy: navigation distance plus oscillation factor, in nanos.
pub open spec fn spec_entropy_component(complexity: int, accessibility: int) -> int {
    spec_navigation_distance(complexity, accessibility) + spec_oscillation_factor(accessibility)
}

/// Analyze the information deficit: the observer's base deficit divided by
/// the context factor, which is the decimal order of the context length
/// floored at one.
pub fn analyze_information_deficit(context: &str, observer: ObserverSophistication) -> (r:
    SEntropyResult<i64>)
    ensures
        r matches Ok(v) && v == spec_info_deficit(observer, context@.len() as int),
{
    let len: usize = context.unicode_len();
    let factor: u64 = if len == 0 {
        1
    } else {
        let e: u32 = crate::nanos::decimal_order_u128(len as u128);
        if e < 1 {
            1
        } else {
            e as u64
        }
    };
    proof {
        assert(factor as int == spec_context_factor(context@.len() as int));
    }
    let base: i64 = observer.base_deficit();
    let v: u128 = ((base as u128) * (NANO as u128)) / (factor as u128);
    proof {
        assert(v <= 1000 * (NANO as int)) by (nonlinear_arith)
            requires
                v == (base as int) * (NANO as int) / (factor as int),
                0 <= base <= 1000,
                factor >= 1,
                NANO == 1_000_000_000,
        ;
    }
    Ok(v as i64)
}

/// The information deficit: base deficit over the context factor, in nanos.
pub open spec fn spec_info_deficit(observer: ObserverSophistication, len: int) -> int {
    observer.spec_base_deficit() * NANO / spec_context_factor(len)
}

/// The context factor: the decimal order of the context length, floored at 1.
pub open spec fn spec_context_factor(len: int) -> int {
    if len >= 1 && decimal_order(len) > 1 {
        decimal_order(len) as int
    } else {
        1
    }
}

/// Whether a character separates words.
pub open spec fn is_word_separator(c: char) -> bool {
    c == ' ' || c == '\t' || c == '\n' || c == '\r'
}

/// Number of words from position `i` on, given whether position `i` is
/// inside a word already begun.
pub open spec fn count_words_from(s: Seq<char>, i: int, in_word: bool) -> int
    decreases s.len() - i,
{
    if i < 0 || i >= s.len() {
        0
    } else {
        let sep = is_word_separator(s[i]);
        (if !sep && !in_word {
            1int
        } else {
            0int
        }) + count_words_from(s, i + 1, !sep)
    }
}

/// Number of words in a text: maximal runs of non-separator characters.
pub open spec fn spec_word_count(s: Seq<char>) -> int {
    count_words_from(s, 0, false)
}

/// Count the words of a text.
fn word_count(s: &str) -> (w: usize)
    ensures
        w == spec_word_count(s@),
        w <= s@.len(),
{
    let n: usize = s.unicode_len();
    let mut w: usize = 0;
    let mut in_word: bool = false;
    let mut i: usize = 0;
    proof {
        lemma_count_words_nonneg(s@, 0, false);
    }
    while i < n
        invariant
            i <= n,
            n == s@.len(),
            w <= i,
            w + count_words_from(s@, i as int, in_word) == spec_word_count(s@),
            count_words_from(s@, i as int, in_word) >= 0,
        decreases n - i,
    {
        let c: char = s.get_char(i);
        let sep: bool = c == ' ' || c == '\t' || c == '\n' || c == '\r';
        proof {
            assert(count_words_from(s@, i as int, in_word) == (if !sep && !in_word {
                1int
            } else {
                0int
            }) + count_words_from(s@, i + 1, !sep));
            lemma_count_words_nonneg(s@, i + 1, !sep);
        }
        if !sep && !in_word {
            w = w + 1;
        }
        in_word = !sep;
        i = i + 1;
    }
    w
}

/// Word counts are never negative.
proof fn lemma_count_words_nonneg(s: Seq<char>, i: int, in_word: bool)
    ensures
        count_words_from(s, i, in_word) >= 0,
    decreases s.len() - i,
{
    if 0 <= i < s.len() {
        lemma_count_words_nonneg(s, i + 1, !is_word_separator(s[i]));
    }
}

/// Frame selection coordinates: the square root of the context length plus
/// the decimal order of its word count, scaled down tenfold and floored at
/// `0.01`; `0.01` outright for a text without words.
pub open spec fn spec_frame_selection(len: int, words: int) -> int {
    if words <= 0 {
        10_000_000
    } else {
        let v = (floor_sqrt(len * NANO * NANO) + decimal_order(words) * NANO) / 10;
        if v >= 10_000_000 {
            v
        } else {
            10_000_000
        }
    }
}

/// Calculate the frame selection coordinates of a context.
pub fn calculate_frame_selection_coordinates(problem_context: &str) -> (r: SEntropyResult<i64>)
    ensures
        r matches Ok(v) && v == spec_frame_selection(
            problem_context@.len() as int,
            spec_word_count(problem_context@),
        ),
        r matches Ok(v) && v >= 10_000_000,
{
    let len: usize = problem_context.unicode_len();
    let words: usize = word_count(problem_context);
    if words == 0 {
        return Ok(10_000_000);
    }
    proof {
        assert((len as int) * (NANO as int) * (NANO as int)
            < 100_000_000_000_000_000_000_000_000_000_000_000_000int && (len as int) * (
        NANO as int) * (NANO as int) >= 0) by (nonlinear_arith)
            requires
                0 <= len <= 0xFFFF_FFFF_FFFF_FFFFu64 as int,
                NANO == 1_000_000_000,
        ;
    }
    let sq: u128 = (len as u128) * (NANO as u128) * (NANO as u128);
    let rt: u128 = isqrt_u128(sq);
    proof {
        if rt > 5_000_000_000_000_000_000u128 {
            assert(rt * rt > 20_000_000_000_000_000_000_000_000_000_000_000_000u128)
                by (nonlinear_arith)
                requires
                    rt > 5_000_000_000_000_000_000u128,
            ;
        }
        crate::nanos::lemma_floor_sqrt(sq as int);
        crate::nanos::lemma_isqrt_unique(sq as int, rt as int, crate::nanos::floor_sqrt(sq as int));
    }
    let e: u32 = crate::nanos::decimal_order_u128(words as u128);
    let v: u128 = (rt + (e as u128) * (NANO as u128)) / 10;
    if v >= 10_000_000 {
        Ok(v as i64)
    } else {
        Ok(10_000_000)
    }
}

/// Ultra-precision temporal coordination distance, clamped at zero (the
/// distance is never negative, so the clamp never binds).
pub fn calculate_temporal_coordination_distance(target_exp: i32) -> (r: SEntropyResult<i64>)
    ensures
        r matches Ok(v) && v == spec_precision_distance(target_exp as int),
        r matches Ok(v) && v >= 0,
{
    if target_exp <= -30 {
        Ok(10_000_000)
    } else {
        Ok(((target_exp as i64) + 30) * NANO)
    }
}

/// Emotional time distortion: ten times the emotional factor, clamped at
/// zero.
pub fn calculate_emotional_time_distortion(emotional: i64) -> (r: SEntropyResult<i64>)
    requires
        -COMPONENT_LIMIT <= emotional <= COMPONENT_LIMIT / 10,
    ensures
        r matches Ok(v) && v == if 10 * emotional >= 0 {
            10 * emotional
        } else {
            0
        },
{
    if emotional <= 0 {
        Ok(0)
    } else {
        Ok(10 * emotional)
    }
}

/// Entropy endpoint navigation distance, clamped at zero; a distance too
/// large for the nanos representation is rejected as a calculation error.
pub fn calculate_entropy_navigation_distance(complexity: i64, accessibility: i64) -> (r:
    SEntropyResult<i64>)
    ensures
        ({
            let nav = spec_navigation_distance(complexity as int, accessibility as int);
            let v = if nav >= 0 {
                nav
            } else {
                0
            };
            &&& (r is Ok <==> v <= COMPONENT_LIMIT)
            &&& (r matches Ok(o) ==> o == v)
            &&& (r matches Err(e) ==> e matches crate::error::SEntropyError::SEntropyCalculation {
                ..
            })
        }),
{
    if accessibility > 900_000_000 {
        Ok(10_000_000)
    } else {
        proof {
            assert(((NANO as int) - accessibility) * complexity
                < 100_000_000_000_000_000_000_000_000_000_000_000_000int && ((NANO as int)
                - accessibility) * complexity
                > -100_000_000_000_000_000_000_000_000_000_000_000_000int) by (nonlinear_arith)
                requires
                    i64::MIN <= complexity <= i64::MAX,
                    i64::MIN <= accessibility <= i64::MAX,
                    NANO == 1_000_000_000,
            ;
        }
        let p: i128 = ((NANO as i128) - (accessibility as i128)) * (complexity as i128);
        proof {
            lemma_tdiv_bounds(p as int, NANO as int);
        }
        let q: i128 = tdiv_i128(p, NANO as i128);
        if q <= 0 {
            Ok(0)
        } else if q <= COMPONENT_LIMIT as i128 {
            Ok(q as i64)
        } else {
            Err(crate::error::SEntropyError::s_entropy_calculation(
                "entropy navigation distance out of range".to_owned(),
            ))
        }
    }
}

/// Oscillation accessibility factor, clamped at zero (the factor is never
/// negative, so the clamp never binds).
pub fn calculate_oscillation_accessibility(accessibility: i64) -> (r: SEntropyResult<i64>)
    requires
        -COMPONENT_LIMIT / 100 <= accessibility <= COMPONENT_LIMIT,
    ensures
        r matches Ok(v) && v == spec_oscillation_factor(accessibility as int),
        r matches Ok(v) && v >= 0,
{
    if accessibility > 500_000_000 {
        if accessibility > NANO {
            let e: u32 = crate::nanos::decimal_order_u128(accessibility as u128);
            proof {
                lemma_order_at_least(accessibility as int, e as nat);
            }
            Ok(((e as i64) - 9) * NANO)
        } else {
            Ok(0)
        }
    } else {
        let d: i128 = (NANO as i128 - accessibility as i128) * 100;
        Ok(d as i64)
    }
}

/// A value above one whole unit has decimal order at least 9.
pub proof fn lemma_order_at_least(n: int, e: nat)
    requires
        order_of(n, e),
        n > NANO,
    ensures
        9 <= e,
{
    if e < 9 {
        crate::nanos::lemma_pow10_mono(e + 1, 9);
        assert(crate::nanos::pow10(9) == 1_000_000_000int) by {
            reveal_with_fuel(crate::nanos::pow10, 10);
        }
    }
}

/// Attempt observer-process integration: one 20% reduction step, successful
/// when the reduced separation is at or below the target.
pub fn attempt_integration(current_separation: i64, target_separation: i64) -> (r: SEntropyResult<
    bool,
>)
    ensures
        r matches Ok(b) && b == (tdiv(8 * current_separation, 10) <= target_separation),
{
    let achieved: i128 = tdiv_i128(8 * (current_separation as i128), 10);
    proof {
        lemma_tdiv_bounds(8 * (current_separation as int), 10);
    }
    Ok(achieved <= target_separation as i128)
}

/// Observer-process separation distance: the floor square root of the sum of
/// the squared components, in nanos.
pub fn calculate_separation_distance(s_knowledge: i64, s_time: i64, s_entropy: i64) -> (r:
    SEntropyResult<i64>)
    requires
        -COMPONENT_LIMIT <= s_knowledge <= COMPONENT_LIMIT,
        -COMPONENT_LIMIT <= s_time <= COMPONENT_LIMIT,
        -COMPONENT_LIMIT <= s_entropy <= COMPONENT_LIMIT,
    ensures
        r matches Ok(m) && m >= 0 && m * m <= s_knowledge * s_knowledge + s_time * s_time
            + s_entropy * s_entropy < (m + 1) * (m + 1),
{
    let k: i128 = s_knowledge as i128;
    let t: i128 = s_time as i128;
    let e: i128 = s_entropy as i128;
    proof {
        assert(k * k <= COMPONENT_LIMIT as int * COMPONENT_LIMIT as int && k * k >= 0)
            by (nonlinear_arith)
            requires
                -COMPONENT_LIMIT <= k <= COMPONENT_LIMIT,
        ;
        assert(t * t <= COMPONENT_LIMIT as int * COMPONENT_LIMIT as int && t * t >= 0)
            by (nonlinear_arith)
            requires
                -COMPONENT_LIMIT <= t <= COMPONENT_LIMIT,
        ;
        assert(e * e <= COMPONENT_LIMIT as int * COMPONENT_LIMIT as int && e * e >= 0)
            by (nonlinear_arith)
            requires
                -COMPONENT_LIMIT <= e <= COMPONENT_LIMIT,
        ;
    }
    let sq: i128 = k * k + t * t + e * e;
    let m: u128 = isqrt_u128(sq as u128);
    proof {
        if m > 2_000_000_000_000_000_000u128 {
            assert(m * m > 3_000_000_000_000_000_000_000_000_000_000_000_000u128)
                by (nonlinear_arith)
                requires
                    m > 2_000_000_000_000_000_000u128,
            ;
        }
    }
    Ok(m as i64)
}

} // verus!
