//! The wall clock.

use vstd::prelude::*;

verus! {

/// Reads the wall clock with `chrono::Utc::now` and returns what
/// `DateTime::timestamp_millis` makes of it: the milliseconds since the
/// start of 1970 (UTC). The result differs from call to call; all that is
/// claimed is that it is not negative, since `Utc::now` does not return for
/// a clock that is set before 1970.
#[verifier::external_body]
pub(crate) fn current_time_millis() -> (now: i64)
    ensures
        0 <= now,
{
    chrono::Utc::now().timestamp_millis()
}

} // verus!
