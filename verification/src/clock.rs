//! The wall clock, reached through `chrono`.

use vstd::prelude::*;

verus! {

/// Relies on `chrono::Utc::now`: the current instant, as milliseconds since
/// the Unix epoch. The value depends on the machine's clock, so nothing is
/// stated of it; every caller's contract holds whatever instant comes back.
#[verifier::external_body]
pub(crate) fn now_timestamp_millis() -> (t: i64) {
    chrono::Utc::now().timestamp_millis()
}

} // verus!
