//! The wall clock.
use vstd::prelude::*;

verus! {

/// Milliseconds since the Unix epoch, 0 when the clock reads earlier.
/// Relies on std::time::SystemTime::now for the current wall-clock time;
/// nothing is promised of the value.
#[verifier::external_body]
pub fn now_ms() -> (r: u64) {
    match std::time::SystemTime::now().duration_since(std::time::UNIX_EPOCH) {
        Ok(d) => d.as_millis() as u64,
        Err(_) => 0,
    }
}

} // verus!
