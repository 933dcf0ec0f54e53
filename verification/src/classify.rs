//! Universal problem class recognition.
//!
//! A problem description is classified by keyword: the text is folded to
//! lower case (ASCII letters only; other characters pass through) and
//! searched for each class's keywords.

use vstd::prelude::*;
use vstd::string::StrSliceExecFns;

verus! {

/// ASCII lower-casing of one code point: upper-case letters gain 32.
pub open spec fn lower_code(x: u32) -> u32 {
    if 65 <= x <= 90 {
        (x + 32) as u32
    } else {
        x
    }
}

/// The text's code points, folded to lower case.
pub open spec fn lowered(s: Seq<char>) -> Seq<u32> {
    s.map_values(|c: char| lower_code(c as u32))
}

/// Whether `n` occurs contiguously in `h`.
pub open spec fn contains_sub(h: Seq<u32>, n: Seq<u32>) -> bool {
    exists|i: int|
        0 <= i <= h.len() - n.len() && #[trigger] h.subrange(i, i + n.len() as int) == n
}

/// Whether the lower-cased text contains the lower-cased keyword.
pub open spec fn has_keyword(s: Seq<char>, keyword: Seq<char>) -> bool {
    contains_sub(lowered(s), lowered(keyword))
}

/// The class of a problem description, by keyword.
pub open spec fn spec_problem_class(s: Seq<char>) -> Seq<char> {
    if has_keyword(s, "cognitive"@) || has_keyword(s, "mind"@) || has_keyword(s, "thought"@) {
        "Cognitive Pattern Selection"@
    } else if has_keyword(s, "time"@) || has_keyword(s, "temporal"@) || has_keyword(s, "sync"@) {
        "Temporal Coordination"@
    } else if has_keyword(s, "communication"@) || has_keyword(s, "message"@) || has_keyword(
        s,
        "signal"@,
    ) {
        "Communication Optimization"@
    } else if has_keyword(s, "domain"@) || has_keyword(s, "transfer"@) || has_keyword(
        s,
        "cross"@,
    ) {
        "Cross-Domain Transfer"@
    } else if has_keyword(s, "memory"@) || has_keyword(s, "storage"@) || has_keyword(
        s,
        "cache"@,
    ) {
        "Memory Optimization"@
    } else {
        "General Problem"@
    }
}

/// The text's code points folded to lower case, as a vector.
fn lowered_codes(s: &str) -> (v: Vec<u32>)
    ensures
        v@ == lowered(s@),
{
    let n: usize = s.unicode_len();
    let mut v: Vec<u32> = Vec::new();
    let mut i: usize = 0;
    proof {
        assert(v@ =~= lowered(s@).take(0));
    }
    while i < n
        invariant
            i <= n,
            n == s@.len(),
            v@ =~= lowered(s@).take(i as int),
        decreases n - i,
    {
        let c: char = s.get_char(i);
        let x: u32 = c as u32;
        let folded: u32 = if 65 <= x && x <= 90 {
            x + 32
        } else {
            x
        };
        v.push(folded);
        proof {
            assert(lowered(s@)[i as int] == lower_code(s@[i as int] as u32));
            assert(v@ =~= lowered(s@).take(i + 1));
        }
        i = i + 1;
    }
    proof {
        assert(lowered(s@).take(n as int) =~= lowered(s@));
    }
    v
}

/// Whether the window of `h` at `start` equals `n`.
fn window_eq(h: &Vec<u32>, n: &Vec<u32>, start: usize) -> (b: bool)
    requires
        start + n@.len() <= h@.len(),
    ensures
        b == (h@.subrange(start as int, start + n@.len() as int) == n@),
{
    let nl: usize = n.len();
    let hl: usize = h.len();
    let mut j: usize = 0;
    while j < nl
        invariant
            j <= nl,
            nl == n@.len(),
            hl == h@.len(),
            start + nl <= hl,
            forall|m: int| 0 <= m < j ==> h@[start + m] == n@[m],
        decreases nl - j,
    {
        if h[start + j] != n[j] {
            proof {
                assert(h@.subrange(start as int, start + nl as int)[j as int] == h@[start + j]);
            }
            return false;
        }
        j = j + 1;
    }
    proof {
        assert(h@.subrange(start as int, start + nl as int) =~= n@);
    }
    true
}

/// Whether `n` occurs contiguously in `h`.
fn contains_codes(h: &Vec<u32>, n: &Vec<u32>) -> (b: bool)
    ensures
        b == contains_sub(h@, n@),
{
    let hl: usize = h.len();
    let nl: usize = n.len();
    if nl > hl {
        return false;
    }
    if nl == 0 {
        proof {
            assert(h@.subrange(0, 0 + n@.len() as int) =~= n@);
            assert(contains_sub(h@, n@));
        }
        return true;
    }
    let mut i: usize = 0;
    while i <= hl - nl
        invariant
            1 <= nl <= hl,
            hl == h@.len(),
            nl == n@.len(),
            i <= hl - nl + 1,
            forall|k: int| 0 <= k < i ==> #[trigger] h@.subrange(k, k + n@.len() as int) != n@,
        decreases hl - nl + 1 - i,
    {
        if window_eq(h, n, i) {
            proof {
                assert(0 <= i as int <= h@.len() - n@.len() && h@.subrange(
                    i as int,
                    i as int + n@.len() as int,
                ) == n@);
            }
            return true;
        }
        i = i + 1;
    }
    false
}

/// Helper: search the text for one keyword.
fn text_has_keyword(text: &Vec<u32>, keyword: &str, ghost_text: Ghost<Seq<char>>) -> (b: bool)
    requires
        text@ == lowered(ghost_text@),
    ensures
        b == has_keyword(ghost_text@, keyword@),
{
    let k = lowered_codes(keyword);
    contains_codes(text, &k)
}

/// Recognize the universal problem class of a description, by keyword over
/// its lower-cased text.
pub fn recognize_problem_class(problem: &str) -> (r: String)
    ensures
        r@ == spec_problem_class(problem@),
{
    let text = lowered_codes(problem);
    let ghost gt: Seq<char> = problem@;
    if text_has_keyword(&text, "cognitive", Ghost(gt)) || text_has_keyword(&text, "mind", Ghost(gt))
        || text_has_keyword(&text, "thought", Ghost(gt)) {
        "Cognitive Pattern Selection".to_owned()
    } else if text_has_keyword(&text, "time", Ghost(gt)) || text_has_keyword(
        &text,
        "temporal",
        Ghost(gt),
    ) || text_has_keyword(&text, "sync", Ghost(gt)) {
        "Temporal Coordination".to_owned()
    } else if text_has_keyword(&text, "communication", Ghost(gt)) || text_has_keyword(
        &text,
        "message",
        Ghost(gt),
    ) || text_has_keyword(&text, "signal", Ghost(gt)) {
        "Communication Optimization".to_owned()
    } else if text_has_keyword(&text, "domain", Ghost(gt)) || text_has_keyword(
        &text,
        "transfer",
        Ghost(gt),
    ) || text_has_keyword(&text, "cross", Ghost(gt)) {
        "Cross-Domain Transfer".to_owned()
    } else if text_has_keyword(&text, "memory", Ghost(gt)) || text_has_keyword(
        &text,
        "storage",
        Ghost(gt),
    ) || text_has_keyword(&text, "cache", Ghost(gt)) {
        "Memory Optimization".to_owned()
    } else {
        "General Problem".to_owned()
    }
}

} // verus!
