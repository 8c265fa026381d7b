//! The metrics timestamp: the current Unix time scaled to nanoseconds, at
//! millisecond precision.

use vstd::prelude::*;

verus! {

/// Relies on `std::time::SystemTime::now` read against
/// `std::time::UNIX_EPOCH`: the seconds and milliseconds-within-second of
/// the current time, when the clock stands after the epoch. The value
/// changes from call to call; only the millisecond bound is promised.
#[verifier::external_body]
fn now_unix() -> (r: Option<(u64, u32)>)
    ensures
        r matches Some(p) ==> p.1 < 1000,
{
    match std::time::SystemTime::now().duration_since(std::time::UNIX_EPOCH) {
        Ok(d) => Some((d.as_secs(), d.subsec_millis())),
        Err(_) => None,
    }
}

/// The timestamp for a moment given as seconds and milliseconds: whole
/// milliseconds scaled to nanoseconds.
pub fn ts_nano_from(secs: u64, subsec_millis: u32) -> (r: u128)
    requires
        subsec_millis < 1000,
    ensures
        r == (secs * 1000 + subsec_millis) * 1000000,
{
    (secs as u128 * 1000 + subsec_millis as u128) * 1000000
}

/// The current Unix time in nanoseconds, at millisecond precision; nothing
/// when the clock stands before the epoch. The moment itself comes from the
/// clock, so only the precision is promised: the count is whole
/// milliseconds scaled to nanoseconds.
pub fn ts_nano() -> (r: Option<u128>)
    ensures
        r matches Some(n) ==> n % 1000000 == 0,
{
    match now_unix() {
        Some(p) => Some(ts_nano_from(p.0, p.1)),
        None => None,
    }
}

} // verus!
