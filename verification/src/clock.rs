//! The wall clock, read through `chrono`.
use vstd::prelude::*;

verus! {

/// `chrono::Utc::now`, as microseconds since the Unix epoch. Nothing is
/// claimed of the result: it is whatever the clock says.
#[verifier::external_body]
pub(crate) fn now_micros() -> i64 {
    chrono::Utc::now().timestamp_micros()
}

} // verus!
