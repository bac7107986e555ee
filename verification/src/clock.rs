//! A monotonic clock that hands out plain integers.

use vstd::prelude::*;
use std::time::Instant;

verus! {

/// A point in time: whole nanoseconds since the origin of the [`Clock`] that
/// produced it.
pub type Timestamp = u128;

/// Nanoseconds in one second.
pub const NANOS_PER_SECOND: u128 = 1_000_000_000;

/// The idle window after which an unused entry may be dropped: five minutes,
/// in nanoseconds.
pub const IDLE_WINDOW_NANOS: u128 = 300_000_000_000;

/// The idle window in whole seconds.
pub const IDLE_WINDOW_SECONDS: u128 = 300;

/// Declares `std::time::Instant`, so that a clock can hold one. Nothing of
/// what an instant holds is visible.
#[verifier::external_type_specification]
#[verifier::external_body]
pub struct ExInstant(Instant);

/// Calls `Instant::now`. Nothing is claimed of the instant.
#[verifier::external_body]
fn instant_now() -> Instant {
    Instant::now()
}

/// Calls `Instant::elapsed` and converts the duration with
/// `Duration::as_nanos`. Nothing is claimed of the number: it depends on when
/// the call is made.
#[verifier::external_body]
fn elapsed_nanos(origin: &Instant) -> u128 {
    origin.elapsed().as_nanos()
}

/// A monotonic clock whose readings count from the moment it was made.
#[derive(Debug, Clone, Copy)]
pub struct Clock {
    origin: Instant,
}

impl Clock {
    /// A clock that starts now.
    pub fn new() -> Clock {
        Clock { origin: instant_now() }
    }

    /// The time since the clock was made.
    pub fn now(&self) -> Timestamp {
        elapsed_nanos(&self.origin)
    }
}

/// Whether something last touched at `last` has been idle for more than the
/// idle window at `now`.
pub open spec fn idle_longer_than_window(last: Timestamp, now: Timestamp) -> bool {
    now - last > IDLE_WINDOW_NANOS
}

/// Whether something last touched at `last` has been idle for more than the
/// idle window at `now`.
pub fn is_idle(last: Timestamp, now: Timestamp) -> (r: bool)
    ensures
        r == idle_longer_than_window(last, now),
{
    now > last && now - last > IDLE_WINDOW_NANOS
}

/// Whole seconds from `last` to `now`; zero when `last` is not before `now`.
pub open spec fn whole_seconds_between(last: Timestamp, now: Timestamp) -> int {
    if now <= last {
        0
    } else {
        (now - last) / (NANOS_PER_SECOND as int)
    }
}

/// Whole seconds from `last` to `now`; zero when `last` is not before `now`.
pub fn seconds_between(last: Timestamp, now: Timestamp) -> (r: u128)
    ensures
        r == whole_seconds_between(last, now),
{
    if now <= last {
        0
    } else {
        (now - last) / NANOS_PER_SECOND
    }
}

} // verus!
