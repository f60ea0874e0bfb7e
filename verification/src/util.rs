//! Small helpers shared by both emulation handles.

use vstd::prelude::*;

verus! {

/// The current unix time in whole seconds, used when no block time was
/// configured.  The value depends on the system clock, so nothing is
/// promised of it.
pub fn now_sec_u64() -> u64 {
    system_now_unix_secs()
}

/// Relies on `std::time::SystemTime::now` and its distance from the
/// unix epoch in whole seconds; a clock set before the epoch reads as
/// zero.
#[verifier::external_body]
fn system_now_unix_secs() -> u64 {
    match std::time::SystemTime::now().duration_since(std::time::SystemTime::UNIX_EPOCH) {
        Ok(elapsed) => elapsed.as_secs(),
        Err(_) => 0,
    }
}

} // verus!
