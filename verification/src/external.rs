//! Trusted boundary to the identifier and clock crates.
//!
//! Every record the engine creates carries a unique identifier and a creation
//! timestamp.  Both come from outside crates; nothing downstream depends on
//! their values, so nothing is promised of them.

use vstd::prelude::*;

verus! {

/// Relies on `uuid::Uuid::new_v4`, read out through `Uuid::as_u128`: a
/// freshly generated random identifier.  The value depends on the process's
/// randomness, so nothing is promised of it.
#[verifier::external_body]
pub(crate) fn fresh_id() -> u128 {
    uuid::Uuid::new_v4().as_u128()
}

/// Relies on `chrono::Utc::now`, read out through `DateTime::timestamp`: the
/// current Unix time in whole seconds.  The value depends on the machine's
/// clock, so nothing is promised of it.
#[verifier::external_body]
pub(crate) fn now_seconds() -> i64 {
    chrono::Utc::now().timestamp()
}

} // verus!
