//! Time, as the dispatcher takes it: whole milliseconds on a monotonic
//! clock, counted from the moment the clock was made.

use std::time::Duration;
use std::time::Instant;
use vstd::prelude::*;

verus! {

/// `std::time::Instant`, a point on the monotonic clock. Nothing in it is
/// seen here; it is kept and handed back to std.
#[verifier::external_type_specification]
#[verifier::external_body]
pub struct ExInstant(Instant);

/// Calls `Instant::now`. Each call may give another instant, so nothing is
/// claimed of the result.
#[verifier::external_body]
fn instant_now() -> Instant {
    Instant::now()
}

/// Calls `Instant::elapsed`: the time that has passed since `origin`. It
/// moves with the clock, so nothing is claimed of the result.
#[verifier::external_body]
fn elapsed_since(origin: &Instant) -> Duration {
    origin.elapsed()
}

/// Calls `Duration::as_millis`: the whole milliseconds in `span`. Nothing is
/// claimed of the result.
#[verifier::external_body]
fn whole_millis(span: &Duration) -> u128 {
    span.as_millis()
}

/// A monotonic clock that counts milliseconds from its own start.
#[derive(Clone, Copy, Debug)]
pub struct Clock {
    origin: Instant,
}

impl Clock {
    /// A clock that starts now.
    pub fn new() -> Clock {
        Clock { origin: instant_now() }
    }

    /// The instant at which the clock started.
    pub closed spec fn start(&self) -> Instant {
        self.origin
    }

    /// The instant at which the clock started.
    pub fn origin(&self) -> (origin: Instant)
        ensures
            origin == self.start(),
    {
        self.origin
    }

    /// The milliseconds since the clock started, as `reading_of` gives them
    /// for what the clock says. The clock moves, so nothing is promised of
    /// the reading itself.
    pub fn now(&self) -> u64 {
        let span = elapsed_since(&self.origin);
        let millis: u128 = whole_millis(&span);
        reading_of(millis)
    }
}

/// The reading for a count of milliseconds: the count itself, and the
/// greatest reading there is where the count is beyond it.
pub open spec fn reading(millis: u128) -> u64 {
    if millis > u64::MAX {
        u64::MAX
    } else {
        millis as u64
    }
}

/// The reading for a count of milliseconds. A count that does not fit is
/// given as the greatest reading that does.
pub fn reading_of(millis: u128) -> (r: u64)
    ensures
        r == reading(millis),
{
    if millis > 0xffff_ffff_ffff_ffff {
        0xffff_ffff_ffff_ffff
    } else {
        millis as u64
    }
}

/// The deadline that a timeout sets when it starts at `now`.
pub open spec fn deadline_after(now: u64, timeout_milliseconds: u64) -> u128 {
    (now + timeout_milliseconds) as u128
}

/// Has `deadline` come at `now`? A deadline has come from the very
/// millisecond it names.
pub open spec fn deadline_reached(deadline: u128, now: u64) -> bool {
    now >= deadline
}

/// The deadline `timeout_milliseconds` after `now`.
pub fn deadline(now: u64, timeout_milliseconds: u64) -> (at: u128)
    ensures
        at == deadline_after(now, timeout_milliseconds),
        at == now + timeout_milliseconds,
{
    now as u128 + timeout_milliseconds as u128
}

/// True from the millisecond that `deadline` names.
pub fn reached(deadline: u128, now: u64) -> (r: bool)
    ensures
        r == deadline_reached(deadline, now),
{
    now as u128 >= deadline
}

} // verus!
