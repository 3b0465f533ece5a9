//! The two calls whose results depend on the environment: the system clock
//! and random id generation.  Nothing is promised of either value; every
//! caller is verified for whatever comes back.

use vstd::prelude::*;

verus! {

/// Seconds since the Unix epoch as the system clock reports them; a clock
/// set before the epoch reports zero.  Relies on
/// `std::time::SystemTime::now`; the value depends on the environment, so
/// nothing is promised of it.
#[verifier::external_body]
pub fn current_timestamp() -> u64 {
    match std::time::SystemTime::now().duration_since(std::time::UNIX_EPOCH) {
        Ok(d) => d.as_secs(),
        Err(_) => 0,
    }
}

/// A freshly generated id in text form.  Relies on `uuid::Uuid::new_v4`;
/// the value is random, so nothing is promised of it.
#[verifier::external_body]
pub fn fresh_id() -> String {
    uuid::Uuid::new_v4().to_string()
}

} // verus!
