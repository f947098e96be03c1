//! The time of day.
use vstd::prelude::*;

verus! {

/// `std::time::SystemTime::elapsed` on the Unix epoch, in whole milliseconds;
/// `None` where the clock stands before the epoch. Nothing is said of the time
/// that it gives.
#[verifier::external_body]
fn since_epoch() -> (r: Option<u64>) {
    match std::time::UNIX_EPOCH.elapsed() {
        Ok(elapsed) => Some(elapsed.as_millis() as u64),
        Err(_) => None,
    }
}

/// A reading of the clock in milliseconds since the Unix epoch: 0 where it
/// stands before the epoch.
pub fn millis_of(since_epoch: Option<u64>) -> (r: u64)
    ensures
        r == match since_epoch {
            Some(millis) => millis,
            None => 0,
        },
{
    match since_epoch {
        Some(millis) => millis,
        None => 0,
    }
}

/// The time in milliseconds since the Unix epoch. Which time that is rests with
/// the machine's clock.
pub(crate) fn unix_millis() -> (r: u64) {
    millis_of(since_epoch())
}

} // verus!
