//! The wall clock.

use vstd::prelude::*;

verus! {

/// Calls `chrono::Local::now` and `DateTime::timestamp_millis`: the wall
/// clock in milliseconds since the Unix epoch. Nothing is claimed of the
/// reading; a wall clock may even step backwards. On a machine whose clock
/// is set before 1970 `chrono` itself stops the process.
#[verifier::external_body]
pub(crate) fn now_millis() -> (now: i64) {
    chrono::Local::now().timestamp_millis()
}

} // verus!
