//! The wall clock, the one source of time of the library.
use vstd::prelude::*;

verus! {

/// Milliseconds since the Unix epoch.
///
/// Relies on `std::time::SystemTime::now` and `duration_since(UNIX_EPOCH)`.
/// Nothing is promised of the value: the clock may jump either way.
#[verifier::external_body]
pub(crate) fn now_millis() -> (r: u64) {
    match std::time::SystemTime::now().duration_since(std::time::UNIX_EPOCH) {
        Ok(d) => d.as_millis() as u64,
        Err(_) => 0,
    }
}

} // verus!
