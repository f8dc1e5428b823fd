//! The clock and the source of chance: the two things in the library whose
//! answers depend on more than what they are given. Nothing is claimed of
//! what they answer; whoever uses them states what holds of every answer.

use std::collections::hash_map::{DefaultHasher, RandomState};
use std::hash::Hasher;
use std::time::{Duration, Instant, SystemTime};
use vstd::prelude::*;

verus! {

/// A time of the system's clock.
#[verifier::external_type_specification]
#[verifier::external_body]
pub struct ExSystemTime(SystemTime);

/// A moment of the monotonic clock.
#[verifier::external_type_specification]
#[verifier::external_body]
pub struct ExInstant(Instant);

/// `SystemTime::now` of std: the present time.
#[verifier::external_body]
pub(crate) fn system_now() -> (r: SystemTime) {
    SystemTime::now()
}

/// `SystemTime::duration_since` of std, taken from the start of 1970: the
/// time from then to `time`, and `None` where `time` lies before it.
#[verifier::external_body]
pub(crate) fn since_epoch(time: &SystemTime) -> (r: Option<Duration>) {
    match time.duration_since(std::time::UNIX_EPOCH) {
        Ok(d) => Some(d),
        Err(_) => None,
    }
}

/// `Duration::as_secs` of std: the whole seconds of `d`.
#[verifier::external_body]
pub(crate) fn whole_seconds(d: &Duration) -> (r: u64) {
    d.as_secs()
}

/// `Duration::as_nanos` of std: `d` in nanoseconds.
#[verifier::external_body]
pub(crate) fn nanoseconds(d: &Duration) -> (r: u128) {
    d.as_nanos()
}

/// `Duration::as_millis` of std: the whole milliseconds of `d`.
#[verifier::external_body]
pub(crate) fn milliseconds(d: &Duration) -> (r: u128) {
    d.as_millis()
}

/// `Instant::now` of std: the present moment.
#[verifier::external_body]
pub(crate) fn moment() -> (r: Instant) {
    Instant::now()
}

/// `Instant::elapsed` of std: the time that has passed since `start`.
#[verifier::external_body]
pub(crate) fn elapsed_since(start: &Instant) -> (r: Duration) {
    start.elapsed()
}

/// `RandomState::new` of std: a state with keys drawn by chance.
#[verifier::external_body]
pub(crate) fn random_state() -> (r: RandomState) {
    RandomState::new()
}

/// `BuildHasher::build_hasher` of std on a `RandomState`: a hasher that starts
/// from the keys of `state`.
#[verifier::external_body]
pub(crate) fn hasher_of(state: &RandomState) -> (r: DefaultHasher) {
    std::hash::BuildHasher::build_hasher(state)
}

/// The seconds since the start of 1970 by the system's clock; 0 where the
/// clock stands before that.
pub fn unix_seconds() -> u64 {
    let now = system_now();
    match since_epoch(&now) {
        Some(d) => whole_seconds(&d),
        None => 0,
    }
}

/// The nanoseconds since the start of 1970 by the system's clock, as far as
/// they fit in 64 bits; 0 where the clock stands before that.
pub fn unix_nanos() -> u64 {
    let now = system_now();
    match since_epoch(&now) {
        Some(d) => {
            let n: u128 = nanoseconds(&d);
            let low: u128 = n % 0x1_0000_0000_0000_0000u128;
            low as u64
        },
        None => 0,
    }
}

/// A number drawn by chance: what a hasher with fresh keys gives before
/// anything is written to it.
pub fn chance() -> u64 {
    let state = random_state();
    let hasher = hasher_of(&state);
    hasher.finish()
}

} // verus!
