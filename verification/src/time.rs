use vstd::prelude::*;

verus! {

/// Number of microseconds in one day.
pub const DAY_MICROS: u64 = 86_400_000_000;

/// A time of day, counted in microseconds since midnight.
///
/// All schedule arithmetic is cyclic over one day, so every valid value
/// lies strictly below [`DAY_MICROS`].
#[derive(Clone, Copy, Debug, PartialEq, Eq, Structural)]
pub struct TimeOfDay {
    pub micros: u64,
}

/// The duration from `anchor` forward to `now`, wrapping through midnight
/// when `now` precedes `anchor` within the day.
pub open spec fn spec_since(now: TimeOfDay, anchor: TimeOfDay) -> int {
    if now.micros >= anchor.micros {
        now.micros - anchor.micros
    } else {
        now.micros + DAY_MICROS - anchor.micros
    }
}

impl TimeOfDay {
    /// A time of day is valid when it lies within one day.
    pub open spec fn wf(self) -> bool {
        self.micros < DAY_MICROS
    }

    /// Builds a time of day from a microsecond count, rejecting counts of a
    /// whole day or more.
    pub fn from_micros(micros: u64) -> (r: Option<TimeOfDay>)
        ensures
            micros < DAY_MICROS ==> r == Some(TimeOfDay { micros }),
            micros >= DAY_MICROS ==> r is None,
            r matches Some(t) ==> t.wf(),
    {
        if micros < DAY_MICROS {
            Some(TimeOfDay { micros })
        } else {
            None
        }
    }

    /// Builds a time of day from hours, minutes and seconds on the clock.
    pub fn from_hms(hour: u64, minute: u64, second: u64) -> (r: Option<TimeOfDay>)
        ensures
            (hour < 24 && minute < 60 && second < 60) ==> r == Some(TimeOfDay {
                micros: (((hour * 3600 + minute * 60 + second) * 1_000_000) as u64),
            }),
            !(hour < 24 && minute < 60 && second < 60) ==> r is None,
            r matches Some(t) ==> t.wf(),
    {
        if hour < 24 && minute < 60 && second < 60 {
            let secs: u64 = hour * 3600 + minute * 60 + second;
            Some(TimeOfDay { micros: secs * 1_000_000 })
        } else {
            None
        }
    }

    /// The duration from `anchor` forward to `self`, wrapping through
    /// midnight when `self` precedes `anchor` within the day.
    pub fn since(self, anchor: TimeOfDay) -> (d: u64)
        requires
            self.wf(),
            anchor.wf(),
        ensures
            d == spec_since(self, anchor),
            d < DAY_MICROS,
    {
        if self.micros >= anchor.micros {
            self.micros - anchor.micros
        } else {
            self.micros + DAY_MICROS - anchor.micros
        }
    }
}

} // verus!
