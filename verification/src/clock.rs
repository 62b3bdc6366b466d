//! The one reading the library takes from the outside world: the wall clock.

use vstd::prelude::*;

verus! {

/// Relies on chrono::Utc::now: reads the wall clock as Unix seconds. Nothing
/// is promised of the value; callers state what holds of every reading.
#[verifier::external_body]
pub(crate) fn now_utc() -> i64 {
    chrono::Utc::now().timestamp()
}

} // verus!
