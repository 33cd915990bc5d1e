//! A deadline a number of seconds ahead.

use std::time::{SystemTime, UNIX_EPOCH};
use vstd::prelude::*;

verus! {

/// Nanoseconds in a second.
pub const NANOS_PER_SEC: u128 = 1_000_000_000;

/// A point in time, in nanoseconds since the Unix epoch, until which waiting
/// is in order.
pub struct Timeouter {
    timeout_at: u128,
}

/// Calls `SystemTime::now` and gives the time since the Unix epoch in
/// nanoseconds, none for a clock that stands before the epoch.  Trusted:
/// nothing is claimed of the time that comes back.
#[verifier::external_body]
fn now() -> (nanos: Option<u128>) {
    match SystemTime::now().duration_since(UNIX_EPOCH) {
        Ok(elapsed) => Some(elapsed.as_nanos()),
        Err(_) => None,
    }
}

/// The deadline `secs` seconds after `now`, kept within the largest time.
pub open spec fn deadline_after(now: u128, secs: u64) -> u128 {
    if now + secs * NANOS_PER_SEC > u128::MAX {
        u128::MAX
    } else {
        (now + secs * NANOS_PER_SEC) as u128
    }
}

/// A clock's answer as a time: a clock that stands before the epoch counts
/// as standing at it.
pub open spec fn time_of(clock: Option<u128>) -> u128 {
    match clock {
        Some(nanos) => nanos,
        None => 0,
    }
}

/// Computes `time_of`.
pub fn since_epoch(clock: Option<u128>) -> (nanos: u128)
    ensures
        nanos == time_of(clock),
{
    match clock {
        Some(nanos) => nanos,
        None => 0,
    }
}

/// The clock's reading, zero for a clock before the epoch.
fn reading() -> (nanos: u128) {
    since_epoch(now())
}

impl Timeouter {
    /// The deadline in nanoseconds since the Unix epoch.
    pub closed spec fn deadline(&self) -> u128 {
        self.timeout_at
    }

    /// A deadline `secs` seconds after the given time.
    pub fn starting_at(now: u128, secs: u64) -> (timeouter: Timeouter)
        ensures
            timeouter.deadline() == deadline_after(now, secs),
    {
        let span: u128 = secs as u128 * NANOS_PER_SEC;
        Timeouter { timeout_at: now.saturating_add(span) }
    }

    /// Whether the given time is before the deadline.
    pub fn ok_at(&self, now: u128) -> (ok: bool)
        ensures
            ok == (now < self.deadline()),
    {
        now < self.timeout_at
    }

    /// A deadline `secs` seconds from now.  Whatever the clock says, the
    /// deadline is at least that many seconds after the epoch.
    pub fn new(secs: u64) -> (timeouter: Timeouter)
        ensures
            timeouter.deadline() >= secs * NANOS_PER_SEC,
    {
        Timeouter::starting_at(reading(), secs)
    }

    /// Whether the deadline is still ahead.  A deadline at the epoch is never ahead.
    pub fn ok(&self) -> (ok: bool)
        ensures
            ok ==> self.deadline() > 0,
    {
        self.ok_at(reading())
    }
}

} // verus!
