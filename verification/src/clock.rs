//! The machine's clock.

use vstd::prelude::*;

verus! {

/// The current time in seconds since the Unix epoch, read with
/// `chrono::Utc::now` and turned into a number by `DateTime::timestamp`.
///
/// Nothing is claimed of the result: it is whatever the system clock says,
/// and two readings need not even be in order. `Utc::now` panics where the
/// system clock stands before the Unix epoch.
#[verifier::external_body]
pub(crate) fn current_timestamp() -> i64 {
    chrono::Utc::now().timestamp()
}

} // verus!
