//! The one place the library reads a clock.

use vstd::prelude::*;

verus! {

/// Relies on std::time::SystemTime::now: the wall clock as whole
/// milliseconds since the Unix epoch, clamped to 64 bits. Nothing is
/// promised of the value; every function whose contract matters takes the
/// current time as an argument instead.
#[verifier::external_body]
pub fn now_millis() -> u64 {
    match std::time::SystemTime::now().duration_since(std::time::UNIX_EPOCH) {
        Ok(d) => d.as_millis() as u64,
        Err(_) => 0,
    }
}

} // verus!
