use vstd::prelude::*;
use vstd::string::StringExecFns;
use crate::schedule::{Schedule, ScheduleEntry};
use crate::time::TimeOfDay;

verus! {

/// Default fade-in and fade-out duration, in microseconds (5 s).
pub const DEFAULT_FADE_MICROS: u64 = 5_000_000;

/// Default tick interval, in microseconds (60 s).
pub const DEFAULT_UPDATE_INTERVAL_MICROS: u64 = 60_000_000;

/// Why a configuration was rejected at validation time.
#[derive(Clone, Copy, Debug, PartialEq, Eq, Structural)]
pub enum ConfigError {
    /// The schedule holds no entry; cyclic lookup would be undefined.
    EmptySchedule,
    /// An entry time or the anchor time lies outside one day.
    InvalidTime,
    /// The entry times are not strictly ascending.
    UnsortedSchedule,
}

/// Raw settings as read from persisted storage: every duration optional
/// (in microseconds), the schedule not yet validated.
pub struct Config {
    pub initial_fade: Option<u64>,
    pub fade_in: Option<u64>,
    pub fade_out: Option<u64>,
    pub update_interval: Option<u64>,
    pub anchor_time: Option<TimeOfDay>,
    pub dir: Option<String>,
    pub times: Vec<ScheduleEntry>,
}

/// Validated settings ready for the scheduling loop: every duration
/// resolved to its default where absent, the schedule checked non-empty
/// and strictly sorted.
pub struct LoadedConfig {
    pub initial_fade: u64,
    pub fade_in: u64,
    pub fade_out: u64,
    pub update_interval: u64,
    pub anchor_time: Option<TimeOfDay>,
    pub dir: Option<String>,
    pub schedule: Schedule,
}

impl Config {
    /// Every entry time and the anchor time, if any, lie within one day.
    pub open spec fn times_valid(self) -> bool {
        &&& forall|i: int|
            0 <= i < self.times@.len() ==> (#[trigger] self.times@[i]).time.wf()
        &&& (self.anchor_time matches Some(a) ==> a.wf())
    }

    /// The entry times are strictly ascending.
    pub open spec fn times_sorted(self) -> bool {
        forall|i: int, j: int|
            0 <= i < j < self.times@.len() ==> (#[trigger] self.times@[i]).time.micros < (
            #[trigger] self.times@[j]).time.micros
    }

    /// A configuration is accepted exactly when its schedule is non-empty,
    /// all its times are valid, and its entry times are strictly ascending.
    pub open spec fn valid(self) -> bool {
        &&& self.times@.len() > 0
        &&& self.times_valid()
        &&& self.times_sorted()
    }

    /// The loaded form of a valid configuration: absent durations replaced
    /// by their defaults, the initial fade falling back to the fade-in.
    pub open spec fn spec_loaded(self) -> LoadedConfig {
        let fade_in = match self.fade_in {
            Some(v) => v,
            None => DEFAULT_FADE_MICROS,
        };
        LoadedConfig {
            fade_in,
            fade_out: match self.fade_out {
                Some(v) => v,
                None => DEFAULT_FADE_MICROS,
            },
            initial_fade: match self.initial_fade {
                Some(v) => v,
                None => fade_in,
            },
            update_interval: match self.update_interval {
                Some(v) => v,
                None => DEFAULT_UPDATE_INTERVAL_MICROS,
            },
            anchor_time: self.anchor_time,
            dir: self.dir,
            schedule: Schedule { entries: self.times },
        }
    }

    /// Validates the configuration and resolves defaults.
    ///
    /// Returns `Ok` exactly on valid configurations; an empty schedule is
    /// reported first, then an out-of-range time, then a sorting violation.
    pub fn to_loaded(self) -> (r: Result<LoadedConfig, ConfigError>)
        ensures
            self.valid() <==> r == Ok::<LoadedConfig, ConfigError>(self.spec_loaded()),
            self.valid() <==> r is Ok,
            r == Err::<LoadedConfig, ConfigError>(ConfigError::EmptySchedule) <==> self.times@.len()
                == 0,
            r == Err::<LoadedConfig, ConfigError>(ConfigError::InvalidTime) <==> (self.times@.len()
                > 0 && !self.times_valid()),
            r == Err::<LoadedConfig, ConfigError>(ConfigError::UnsortedSchedule) <==> (
            self.times@.len() > 0 && self.times_valid() && !self.times_sorted()),
            r matches Ok(lc) ==> lc.wf(),
    {
        if self.times.len() == 0 {
            return Err(ConfigError::EmptySchedule);
        }
        let n = self.times.len();
        let mut i: usize = 0;
        while i < n
            invariant
                n == self.times@.len(),
                i <= n,
                forall|k: int| 0 <= k < i ==> (#[trigger] self.times@[k]).time.wf(),
            decreases n - i,
        {
            if self.times[i].time.micros >= crate::time::DAY_MICROS {
                return Err(ConfigError::InvalidTime);
            }
            i = i + 1;
        }
        match self.anchor_time {
            Some(a) => {
                if a.micros >= crate::time::DAY_MICROS {
                    return Err(ConfigError::InvalidTime);
                }
            },
            None => {},
        }
        let mut j: usize = 1;
        while j < n
            invariant
                n == self.times@.len(),
                n > 0,
                self.times_valid(),
                1 <= j <= n,
                forall|a: int, b: int|
                    0 <= a < b < j ==> (#[trigger] self.times@[a]).time.micros < (
                    #[trigger] self.times@[b]).time.micros,
            decreases n - j,
        {
            if self.times[j - 1].time.micros >= self.times[j].time.micros {
                return Err(ConfigError::UnsortedSchedule);
            }
            j = j + 1;
        }
        let fade_in: u64 = match self.fade_in {
            Some(v) => v,
            None => DEFAULT_FADE_MICROS,
        };
        Ok(LoadedConfig {
            fade_in,
            fade_out: match self.fade_out {
                Some(v) => v,
                None => DEFAULT_FADE_MICROS,
            },
            initial_fade: match self.initial_fade {
                Some(v) => v,
                None => fade_in,
            },
            update_interval: match self.update_interval {
                Some(v) => v,
                None => DEFAULT_UPDATE_INTERVAL_MICROS,
            },
            anchor_time: self.anchor_time,
            dir: self.dir,
            schedule: Schedule { entries: self.times },
        })
    }

    /// Rebuilds the raw form of a loaded configuration, every setting
    /// present explicitly.
    pub fn from_loaded(config: LoadedConfig) -> (r: Config)
        ensures
            r.initial_fade == Some(config.initial_fade),
            r.fade_in == Some(config.fade_in),
            r.fade_out == Some(config.fade_out),
            r.update_interval == Some(config.update_interval),
            r.anchor_time == config.anchor_time,
            r.dir == config.dir,
            r.times == config.schedule.entries,
    {
        Config {
            initial_fade: Some(config.initial_fade),
            fade_in: Some(config.fade_in),
            fade_out: Some(config.fade_out),
            update_interval: Some(config.update_interval),
            anchor_time: config.anchor_time,
            dir: config.dir,
            times: config.schedule.entries,
        }
    }
}

/// A track reference joined against the base directory when one is set,
/// with `/` as separator; otherwise the reference as given.
pub open spec fn spec_resolve(dir: Option<Seq<char>>, track: Seq<char>) -> Seq<char> {
    match dir {
        Some(d) => d + "/"@ + track,
        None => track,
    }
}

/// Joins `track` against `dir` when a base directory is set.
fn resolve(dir: &Option<String>, track: &String) -> (r: String)
    ensures
        r@ == spec_resolve(
            match dir {
                Some(d) => Some(d@),
                None => None,
            },
            track@,
        ),
{
    match dir {
        Some(d) => {
            let mut s = d.clone();
            s.append("/");
            s.append(track.as_str());
            s
        },
        None => track.clone(),
    }
}

impl LoadedConfig {
    /// A loaded configuration is valid when its schedule is, and its anchor
    /// time, if any, lies within one day.
    pub open spec fn wf(self) -> bool {
        &&& self.schedule.wf()
        &&& (self.anchor_time matches Some(a) ==> a.wf())
    }

    /// The base directory's view, when one is set.
    pub open spec fn spec_dir(self) -> Option<Seq<char>> {
        match self.dir {
            Some(d) => Some(d@),
            None => None,
        }
    }

    /// The resolved path of the track active at `time`.
    pub open spec fn spec_current_song(self, time: TimeOfDay) -> Seq<char> {
        spec_resolve(self.spec_dir(), self.schedule.spec_current(time))
    }

    /// The scheduled time and resolved path of the entry after `time`.
    pub open spec fn spec_next_song(self, time: TimeOfDay) -> (TimeOfDay, Seq<char>) {
        (self.schedule.spec_next(time).0, spec_resolve(self.spec_dir(), self.schedule.spec_next(time).1))
    }

    /// The resolved path of the track that should be playing at `time`:
    /// the entry with the greatest scheduled time at or before `time`,
    /// wrapping to the latest entry when `time` precedes them all.
    pub fn current_song(&self, time: TimeOfDay) -> (r: String)
        requires
            self.wf(),
        ensures
            r@ == self.spec_current_song(time),
    {
        let track = self.schedule.current(time);
        resolve(&self.dir, track)
    }

    /// The scheduled time and resolved path of the earliest entry strictly
    /// after `time`, wrapping to the earliest entry when none follows.
    pub fn next_song(&self, time: TimeOfDay) -> (r: (TimeOfDay, String))
        requires
            self.wf(),
        ensures
            r.0 == self.spec_next_song(time).0,
            r.1@ == self.spec_next_song(time).1,
    {
        let (t, track) = self.schedule.next(time);
        let path = resolve(&self.dir, track);
        (t, path)
    }
}

} // verus!
