//! Whole-second durations used by waits, timeouts and retry delays.
use vstd::prelude::*;

verus! {

/// A duration counted in whole seconds.
#[derive(Debug, Clone, Copy, PartialEq, Eq, Structural)]
pub struct Duration {
    seconds: u64,
}

impl Duration {
    /// The number of seconds of this duration.
    pub closed spec fn secs(self) -> nat {
        self.seconds as nat
    }

    /// A duration of `seconds` seconds.
    pub fn from_seconds(seconds: u64) -> (r: Self)
        ensures
            r.secs() == seconds,
    {
        Duration { seconds }
    }

    /// A duration of `minutes` minutes (saturating at the largest duration).
    pub fn from_minutes(minutes: u64) -> (r: Self)
        ensures
            r.secs() == if minutes * 60 > u64::MAX { u64::MAX as int } else { minutes * 60 },
    {
        Duration {
            seconds: match minutes.checked_mul(60) {
                Some(s) => s,
                None => u64::MAX,
            },
        }
    }

    /// A duration of `hours` hours (saturating at the largest duration).
    pub fn from_hours(hours: u64) -> (r: Self)
        ensures
            r.secs() == if hours * 3600 > u64::MAX { u64::MAX as int } else { hours * 3600 },
    {
        Duration {
            seconds: match hours.checked_mul(3600) {
                Some(s) => s,
                None => u64::MAX,
            },
        }
    }

    /// A duration of `days` days (saturating at the largest duration).
    pub fn from_days(days: u64) -> (r: Self)
        ensures
            r.secs() == if days * 86400 > u64::MAX { u64::MAX as int } else { days * 86400 },
    {
        Duration {
            seconds: match days.checked_mul(86400) {
                Some(s) => s,
                None => u64::MAX,
            },
        }
    }

    /// A duration of `weeks` weeks of seven days (saturating at the largest duration).
    pub fn from_weeks(weeks: u64) -> (r: Self)
        ensures
            r.secs() == if weeks * 604800 > u64::MAX { u64::MAX as int } else { weeks * 604800 },
    {
        Duration {
            seconds: match weeks.checked_mul(604800) {
                Some(s) => s,
                None => u64::MAX,
            },
        }
    }

    /// A duration of `months` months of thirty days (saturating at the largest duration).
    pub fn from_months(months: u64) -> (r: Self)
        ensures
            r.secs() == if months * 2592000 > u64::MAX { u64::MAX as int } else { months * 2592000 },
    {
        Duration {
            seconds: match months.checked_mul(2592000) {
                Some(s) => s,
                None => u64::MAX,
            },
        }
    }

    /// A duration of `years` years of 365 days (saturating at the largest duration).
    pub fn from_years(years: u64) -> (r: Self)
        ensures
            r.secs() == if years * 31536000 > u64::MAX { u64::MAX as int } else { years * 31536000 },
    {
        Duration {
            seconds: match years.checked_mul(31536000) {
                Some(s) => s,
                None => u64::MAX,
            },
        }
    }

    /// The number of seconds of this duration.
    pub fn to_seconds(&self) -> (r: u64)
        ensures
            r == self.secs(),
    {
        self.seconds
    }
}

impl Default for Duration {
    /// The zero duration.
    fn default() -> (r: Self)
        ensures
            r.secs() == 0,
    {
        Duration { seconds: 0 }
    }
}

} // verus!
