//! Calls into the host environment: randomness and the wall clock.
//!
//! These are the library's only unverified functions. Each wraps one outside
//! call and states no more of the result than the callee documents; nothing
//! is assumed that would pin a random draw or the clock to a value.

use rand::Rng;
use vstd::prelude::*;

verus! {

/// Relies on rand::Rng::gen_range over an inclusive `i64` range: the draw
/// always lies within the given bounds. The range must be non-empty, or the
/// callee panics.
#[verifier::external_body]
pub(crate) fn random_in_range(low: i64, high: i64) -> (result: i64)
    requires
        low <= high,
    ensures
        low <= result <= high,
{
    rand::thread_rng().gen_range(low..=high)
}

/// Relies on rand::random for a coin flip; nothing is assumed of the
/// outcome.
#[verifier::external_body]
pub(crate) fn random_flag() -> (result: bool) {
    rand::random::<bool>()
}

/// Relies on std::time::SystemTime::now and duration_since: wall-clock
/// microseconds since the Unix epoch, truncated to 64 bits. Nothing is
/// assumed of the value. A clock reading from before the epoch aborts, as
/// timestamps cannot be computed then.
#[verifier::external_body]
pub(crate) fn now_micros() -> (result: u64) {
    std::time::SystemTime::now()
        .duration_since(std::time::SystemTime::UNIX_EPOCH)
        .unwrap()
        .as_micros() as u64
}

} // verus!
