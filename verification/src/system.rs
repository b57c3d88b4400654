//! What the session takes from the machine it runs on: the time of day and a
//! random choice. Verus takes the contracts below on trust.

use rand::Rng;
use vstd::prelude::*;

verus! {

/// The current time as `chrono::Utc::now().timestamp()` gives it: whole
/// seconds since the Unix epoch. The value is the system clock's, so nothing
/// is claimed of it. (`Utc::now` gives up on a clock that is set before the
/// epoch.)
#[verifier::external_body]
pub(crate) fn unix_time_now() -> (seconds: i64) {
    chrono::Utc::now().timestamp()
}

/// A random index as `rand::thread_rng().gen_range(0..bound)` gives it. The
/// range must not be empty, or `gen_range` panics; the value drawn lies in
/// the range, and that is all that is claimed of it. (`thread_rng` gives up
/// where the system cannot seed the generator.)
#[verifier::external_body]
pub(crate) fn random_below(bound: usize) -> (index: usize)
    requires
        bound > 0,
    ensures
        index < bound,
{
    rand::thread_rng().gen_range(0..bound)
}

} // verus!
