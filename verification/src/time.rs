//! Instants and spans of time, counted in whole seconds.
//!
//! Both types keep the range of their `chrono` counterparts, so every UTC
//! instant and every span that `chrono` can hold has a value here once its
//! sub-second part is dropped.

use vstd::prelude::*;

verus! {

/// Seconds in a day.
pub const SECS_PER_DAY: i64 = 86_400;

/// The earliest instant, `-262143-01-01T00:00:00Z`, in seconds since the epoch.
pub const MIN_TIMESTAMP: i64 = -8_334_601_228_800;

/// The latest instant, `+262142-12-31T23:59:59Z`, in seconds since the epoch.
pub const MAX_TIMESTAMP: i64 = 8_210_266_876_799;

/// The longest span in seconds, in either direction.
pub const MAX_DURATION_SECS: i64 = 9_223_372_036_854_775;

/// The longest span between two instants, in seconds.
pub const MAX_AGE_SECS: i64 = MAX_TIMESTAMP - MIN_TIMESTAMP;

/// The longest minimum age, in seconds, in either direction: subtracting
/// the span between any two instants from it gives a span in range.
pub const MAX_MINIMUM_AGE_SECS: i64 = MAX_DURATION_SECS - MAX_AGE_SECS;

/// An instant in UTC, as whole seconds since `1970-01-01T00:00:00Z`.
#[derive(Clone, Copy, Debug, PartialEq, Eq, Structural)]
pub struct DateTime {
    secs: i64,
}

/// A signed span of time in whole seconds.
#[derive(Clone, Copy, Debug, PartialEq, Eq, Structural)]
pub struct Duration {
    secs: i64,
}

impl View for DateTime {
    type V = int;

    closed spec fn view(&self) -> int {
        self.secs as int
    }
}

impl View for Duration {
    type V = int;

    closed spec fn view(&self) -> int {
        self.secs as int
    }
}

impl DateTime {
    /// Whether the instant lies in the range of instants. Every instant
    /// that a program holds does.
    pub open spec fn is_valid(self) -> bool {
        MIN_TIMESTAMP <= self@ <= MAX_TIMESTAMP
    }

    #[verifier::type_invariant]
    spec fn in_range(self) -> bool {
        self.is_valid()
    }

    /// The instant `secs` seconds after the epoch, if it is in range.
    pub fn from_timestamp(secs: i64) -> (r: Option<DateTime>)
        ensures
            r is Some <==> MIN_TIMESTAMP <= secs <= MAX_TIMESTAMP,
            r matches Some(t) ==> t@ == secs,
    {
        if MIN_TIMESTAMP <= secs && secs <= MAX_TIMESTAMP {
            Some(DateTime { secs })
        } else {
            None
        }
    }

    /// Seconds since the epoch.
    pub fn timestamp(&self) -> (secs: i64)
        ensures
            secs == self@,
            MIN_TIMESTAMP <= secs <= MAX_TIMESTAMP,
    {
        proof {
            use_type_invariant(self);
        }
        self.secs
    }

    /// The time that passed from `earlier` to `self`; negative when `earlier`
    /// is the later of the two.
    pub fn signed_duration_since(&self, earlier: &DateTime) -> (d: Duration)
        ensures
            d@ == self@ - earlier@,
            -MAX_AGE_SECS <= d@ <= MAX_AGE_SECS,
    {
        proof {
            use_type_invariant(self);
            use_type_invariant(earlier);
        }
        Duration { secs: self.secs - earlier.secs }
    }
}

impl Duration {
    #[verifier::type_invariant]
    spec fn in_range(self) -> bool {
        -MAX_DURATION_SECS <= self.secs <= MAX_DURATION_SECS
    }

    /// A span of `secs` seconds, if it is in range.
    pub fn try_seconds(secs: i64) -> (r: Option<Duration>)
        ensures
            r is Some <==> -MAX_DURATION_SECS <= secs <= MAX_DURATION_SECS,
            r matches Some(d) ==> d@ == secs,
    {
        if -MAX_DURATION_SECS <= secs && secs <= MAX_DURATION_SECS {
            Some(Duration { secs })
        } else {
            None
        }
    }

    /// A span of `days` days.
    pub fn days(days: i32) -> (d: Duration)
        ensures
            d@ == days * SECS_PER_DAY,
    {
        let wide: i64 = days as i64;
        Duration { secs: wide * SECS_PER_DAY }
    }

    /// The span of `secs` seconds.
    pub closed spec fn of_seconds(secs: int) -> Duration {
        Duration { secs: secs as i64 }
    }

    /// A span is known by its seconds.
    pub proof fn lemma_known_by_seconds(self)
        ensures
            Duration::of_seconds(self@) == self,
    {
    }

    /// The span of `secs` seconds has `secs` seconds, as far as spans go.
    pub proof fn lemma_seconds_of(secs: int)
        requires
            -MAX_DURATION_SECS <= secs <= MAX_DURATION_SECS,
        ensures
            Duration::of_seconds(secs)@ == secs,
    {
    }

    /// Whether the span can serve as a minimum age: the time that is left
    /// until an age reaches it is then a span in range, whatever the age.
    pub open spec fn fits_minimum_age(self) -> bool {
        -MAX_MINIMUM_AGE_SECS <= self@ <= MAX_MINIMUM_AGE_SECS
    }

    /// Whether the span can serve as a minimum age.
    pub fn is_minimum_age(&self) -> (fits: bool)
        ensures
            fits == self.fits_minimum_age(),
    {
        -MAX_MINIMUM_AGE_SECS <= self.secs && self.secs <= MAX_MINIMUM_AGE_SECS
    }

    /// `self` less `rhs`.
    pub(crate) fn minus(&self, rhs: &Duration) -> (d: Duration)
        requires
            -MAX_DURATION_SECS <= self@ - rhs@ <= MAX_DURATION_SECS,
        ensures
            d@ == self@ - rhs@,
    {
        proof {
            use_type_invariant(self);
            use_type_invariant(rhs);
        }
        Duration { secs: self.secs - rhs.secs }
    }

    /// The span in seconds.
    pub fn num_seconds(&self) -> (secs: i64)
        ensures
            secs == self@,
            -MAX_DURATION_SECS <= secs <= MAX_DURATION_SECS,
    {
        proof {
            use_type_invariant(self);
        }
        self.secs
    }

    /// The whole days in the span, rounded toward zero.
    pub fn num_days(&self) -> (days: i64)
        ensures
            days == whole_days(self@),
    {
        proof {
            use_type_invariant(self);
        }
        self.secs / SECS_PER_DAY
    }
}

/// Whole days in `secs` seconds, rounded toward zero.
pub open spec fn whole_days(secs: int) -> int {
    if secs >= 0 {
        secs / (SECS_PER_DAY as int)
    } else {
        -((-secs) / (SECS_PER_DAY as int))
    }
}

} // verus!
