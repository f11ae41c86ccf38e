//! Clock readings and lengths of time, in whole milliseconds.
//!
//! The scheduler never reads a clock itself. Its caller hands it readings of
//! a monotonic clock as [`Instant`] values, so a test can supply any sequence
//! of readings it likes. Both types are thin wrappers around a `u64`; their
//! views are the plain number of milliseconds as a `nat`.

use vstd::prelude::*;

verus! {

/// Milliseconds in one second.
pub const MILLIS_PER_SECOND: u64 = 1000;

/// Seconds in one minute.
pub const SECONDS_PER_MINUTE: u64 = 60;

/// How far `later` lies after `earlier`, and zero where it does not.
pub open spec fn elapsed_between(earlier: nat, later: nat) -> nat {
    if later >= earlier {
        (later - earlier) as nat
    } else {
        0
    }
}

/// What is left of `total` once `used` of it has passed, never below zero.
pub open spec fn left_of(total: nat, used: nat) -> nat {
    if total >= used {
        (total - used) as nat
    } else {
        0
    }
}

/// `value` pulled into the range from `low` to `high`.
pub open spec fn clamped(value: nat, low: nat, high: nat) -> nat {
    if value < low {
        low
    } else if value > high {
        high
    } else {
        value
    }
}

/// A length of time in milliseconds.
#[derive(Clone, Copy, Debug, PartialEq, Eq, Structural, PartialOrd, Ord, Hash)]
pub struct Duration {
    ms: u64,
}

impl View for Duration {
    type V = nat;

    /// The number of milliseconds.
    closed spec fn view(&self) -> nat {
        self.ms as nat
    }
}

impl Duration {
    /// The duration of `ms` milliseconds.
    pub fn from_millis(ms: u64) -> (d: Duration)
        ensures
            d@ == ms,
    {
        Duration { ms }
    }

    /// The duration of `secs` whole seconds.
    pub fn from_secs(secs: u32) -> (d: Duration)
        ensures
            d@ == secs * MILLIS_PER_SECOND,
    {
        let wide: u64 = secs as u64;
        Duration { ms: wide * MILLIS_PER_SECOND }
    }

    /// The number of milliseconds.
    pub fn as_millis(&self) -> (ms: u64)
        ensures
            ms == self@,
    {
        self.ms
    }

    /// The number of whole seconds; a started second is not counted.
    pub fn as_secs(&self) -> (secs: u64)
        ensures
            secs == self@ / (MILLIS_PER_SECOND as nat),
    {
        self.ms / MILLIS_PER_SECOND
    }

    /// Whether this is the empty duration.
    pub fn is_zero(&self) -> (zero: bool)
        ensures
            zero <==> self@ == 0,
    {
        self.ms == 0
    }

    /// What is left of this duration once `used` of it has passed; zero once
    /// `used` reaches it.
    pub fn saturating_sub(self, used: Duration) -> (rest: Duration)
        ensures
            rest@ == left_of(self@, used@),
    {
        if self.ms >= used.ms {
            Duration { ms: self.ms - used.ms }
        } else {
            Duration { ms: 0 }
        }
    }

    /// This duration pulled into the range from `low` to `high`.
    pub fn clamp_to(self, low: Duration, high: Duration) -> (d: Duration)
        requires
            low@ <= high@,
        ensures
            d@ == clamped(self@, low@, high@),
    {
        if self.ms < low.ms {
            low
        } else if self.ms > high.ms {
            high
        } else {
            self
        }
    }
}

/// The milliseconds of a duration that may be absent.
pub open spec fn millis_of(d: Option<Duration>) -> Option<nat> {
    match d {
        Some(d) => Some(d@),
        None => None,
    }
}

/// A reading of a monotonic clock: the milliseconds since the clock's origin.
#[derive(Clone, Copy, Debug, PartialEq, Eq, Structural, PartialOrd, Ord, Hash)]
pub struct Instant {
    ms: u64,
}

impl View for Instant {
    type V = nat;

    /// The milliseconds since the clock's origin.
    closed spec fn view(&self) -> nat {
        self.ms as nat
    }
}

impl Instant {
    /// The reading `ms` milliseconds after the clock's origin.
    pub fn from_millis(ms: u64) -> (t: Instant)
        ensures
            t@ == ms,
    {
        Instant { ms }
    }

    /// The reading `secs` whole seconds after the clock's origin.
    pub fn from_secs(secs: u32) -> (t: Instant)
        ensures
            t@ == secs * MILLIS_PER_SECOND,
    {
        let wide: u64 = secs as u64;
        Instant { ms: wide * MILLIS_PER_SECOND }
    }

    /// The milliseconds since the clock's origin.
    pub fn as_millis(&self) -> (ms: u64)
        ensures
            ms == self@,
    {
        self.ms
    }

    /// Whether this reading lies before `other`.
    pub fn is_before(&self, other: Instant) -> (before: bool)
        ensures
            before <==> self@ < other@,
    {
        self.ms < other.ms
    }

    /// The time from `earlier` to this reading, and the empty duration where
    /// `earlier` is in fact the later of the two.
    pub fn since(&self, earlier: Instant) -> (d: Duration)
        ensures
            d@ == elapsed_between(earlier@, self@),
    {
        if self.ms >= earlier.ms {
            Duration { ms: self.ms - earlier.ms }
        } else {
            Duration { ms: 0 }
        }
    }
}

/// A duration split for a minutes-and-seconds countdown display.
#[derive(Clone, Copy, Debug, PartialEq, Eq, Structural)]
pub struct Countdown {
    /// Whole minutes.
    pub minutes: u64,
    /// Whole seconds beyond the minutes, below sixty.
    pub seconds: u64,
}

impl Countdown {
    /// The whole minutes that `ms` milliseconds hold.
    pub open spec fn minutes_in(ms: nat) -> nat {
        ms / (MILLIS_PER_SECOND as nat) / (SECONDS_PER_MINUTE as nat)
    }

    /// The whole seconds that `ms` milliseconds hold beyond the whole minutes.
    pub open spec fn seconds_in(ms: nat) -> nat {
        ms / (MILLIS_PER_SECOND as nat) % (SECONDS_PER_MINUTE as nat)
    }

    /// Splits `d` into whole minutes and seconds. A started second is not
    /// counted, so the display reads `00:00` during the last second.
    pub fn of(d: Duration) -> (c: Countdown)
        ensures
            c.minutes == Self::minutes_in(d@),
            c.seconds == Self::seconds_in(d@),
            c.seconds < SECONDS_PER_MINUTE,
            (c.minutes * SECONDS_PER_MINUTE + c.seconds) * MILLIS_PER_SECOND <= d@,
            d@ < (c.minutes * SECONDS_PER_MINUTE + c.seconds + 1) * MILLIS_PER_SECOND,
    {
        let secs: u64 = d.ms / MILLIS_PER_SECOND;
        Countdown { minutes: secs / SECONDS_PER_MINUTE, seconds: secs % SECONDS_PER_MINUTE }
    }
}

} // verus!
