//! Times as plain numbers: nanoseconds since a clock was started.
use std::time::Instant;
use vstd::prelude::*;

verus! {

/// Declares `std::time::Instant`.
#[verifier::external_type_specification]
#[verifier::external_body]
pub struct ExInstant(Instant);

/// Nanoseconds in a second.
pub const NANOS_PER_SECOND: u128 = 1_000_000_000;

/// Calls `std::time::Instant::now`. Nothing is promised of the instant: it depends on the time.
#[verifier::external_body]
fn instant_now() -> Instant {
    Instant::now()
}

/// Calls `std::time::Instant::elapsed`, in nanoseconds. Nothing is promised of the number: it
/// depends on the time.
#[verifier::external_body]
fn nanos_since(origin: &Instant) -> u128 {
    origin.elapsed().as_nanos()
}

/// The nanoseconds from `then` to `now`, or zero where `then` is the later one.
pub open spec fn nanos_between(then: u128, now: u128) -> nat {
    if then <= now {
        (now - then) as nat
    } else {
        0
    }
}

/// The whole seconds from `then` to `now`.
pub open spec fn seconds_between(then: u128, now: u128) -> nat {
    nanos_between(then, now) / 1_000_000_000
}

/// See [`nanos_between`].
pub fn elapsed_nanos(then: u128, now: u128) -> (nanos: u128)
    ensures
        nanos == nanos_between(then, now),
{
    if then <= now {
        now - then
    } else {
        0
    }
}

/// See [`seconds_between`].
pub fn elapsed_seconds(then: u128, now: u128) -> (seconds: u128)
    ensures
        seconds == seconds_between(then, now),
{
    elapsed_nanos(then, now) / NANOS_PER_SECOND
}

/// Tells the time in nanoseconds since it was started.
pub struct Clock {
    origin: Instant,
}

impl Clock {
    /// Whether the clock counts from an instant at which the time was taken.
    pub closed spec fn is_started(self) -> bool {
        call_ensures(instant_now, (), self.origin)
    }

    /// Whether `time` was read on this clock: it is what its instant gave as the time since then.
    pub closed spec fn is_reading(self, time: u128) -> bool {
        call_ensures(nanos_since, (&self.origin,), time)
    }

    /// Starts a clock.
    pub fn start() -> (clock: Clock)
        ensures
            clock.is_started(),
    {
        Clock { origin: take(instant_now) }
    }

    /// Nanoseconds since the clock was started.
    pub fn now(&self) -> (time: u128)
        ensures
            self.is_reading(time),
    {
        measure(nanos_since, &self.origin)
    }
}

/// What `source` gives.
fn take<F: Fn() -> Instant>(source: F) -> (instant: Instant)
    requires
        call_requires(source, ()),
    ensures
        call_ensures(source, (), instant),
{
    source()
}

/// What `meter` gives for `origin`.
fn measure<F: Fn(&Instant) -> u128>(meter: F, origin: &Instant) -> (nanos: u128)
    requires
        call_requires(meter, (origin,)),
    ensures
        call_ensures(meter, (origin,), nanos),
{
    meter(origin)
}

/// The time that has passed, added to the earlier of two readings, gives the later one; where the
/// clock did not go on, none has passed.
pub proof fn law_elapsed_time_leads_to_the_later_reading(then: u128, now: u128, nanos: u128)
    requires
        call_ensures(elapsed_nanos, (then, now), nanos),
    ensures
        then <= now ==> then + nanos == now,
        now <= then ==> nanos == 0,
{
}

/// The seconds that have passed are whole ones: so many fit between two readings, and one more
/// does not.
pub proof fn law_elapsed_seconds_are_whole(then: u128, now: u128, seconds: u128)
    requires
        call_ensures(elapsed_seconds, (then, now), seconds),
    ensures
        then <= now ==> then + seconds * 1_000_000_000 <= now < then + (seconds + 1)
            * 1_000_000_000,
        now <= then ==> seconds == 0,
{
}

/// A clock counts from the instant at which it was started, and what it tells is the time since that
/// instant, in nanoseconds, as the system measures it.
proof fn law_clock_tells_the_time_since_its_start(clock: Clock, time: u128)
    ensures
        call_ensures(Clock::start, (), clock) ==> call_ensures(instant_now, (), clock.origin),
        call_ensures(Clock::now, (&clock,), time) ==> call_ensures(
            nanos_since,
            (&clock.origin,),
            time,
        ),
        clock.is_reading(time) ==> call_ensures(nanos_since, (&clock.origin,), time),
{
}

} // verus!
