use vstd::prelude::*;
use crate::clock::{calculate_sleep_duration, spec_sleep_duration};
use crate::config::{Config, ConfigError, LoadedConfig};
use crate::time::TimeOfDay;

verus! {

/// What ended a bounded wait on the live config channel: either the tick
/// deadline passed, or a producer pushed a replacement configuration.
pub enum WakeOutcome {
    /// The deadline elapsed with no replacement; keep the configuration.
    TimedOut,
    /// A replacement arrived before the deadline; validate and adopt it.
    Replaced(Config),
}

/// The scheduling loop's state: the active configuration snapshot, the
/// anchor time fixed at start-up, and the track currently playing.
pub struct Sleeper {
    pub config: LoadedConfig,
    pub anchor_time: TimeOfDay,
    pub current_track: String,
}

impl Sleeper {
    pub open spec fn wf(self) -> bool {
        &&& self.config.wf()
        &&& self.anchor_time.wf()
    }

    /// The anchor that tick alignment is computed against: the
    /// configuration's anchor when set, else the start-up anchor.
    pub open spec fn spec_effective_anchor(self) -> TimeOfDay {
        match self.config.anchor_time {
            Some(a) => a,
            None => self.anchor_time,
        }
    }

    /// Starts the scheduler with `config`, anchoring ticks at `anchor_time`
    /// and taking the track scheduled at that moment as the one playing.
    pub fn new(config: LoadedConfig, anchor_time: TimeOfDay) -> (s: Sleeper)
        requires
            config.wf(),
            anchor_time.wf(),
        ensures
            s.wf(),
            s.config == config,
            s.anchor_time == anchor_time,
            s.current_track@ == config.spec_current_song(anchor_time),
    {
        let current_track = config.current_song(anchor_time);
        Sleeper { config, anchor_time, current_track }
    }

    /// One tick: recomputes the track that should be playing at `now` and
    /// reports a transition exactly when it differs from the one playing.
    pub fn tick(&mut self, now: TimeOfDay) -> (transition: Option<String>)
        requires
            old(self).wf(),
            now.wf(),
        ensures
            final(self).wf(),
            final(self).config == old(self).config,
            final(self).anchor_time == old(self).anchor_time,
            final(self).current_track@ == old(self).config.spec_current_song(now),
            old(self).config.spec_current_song(now) == old(self).current_track@ ==> (transition
                is None && final(self).current_track == old(self).current_track),
            old(self).config.spec_current_song(now) != old(self).current_track@ ==> (
            transition matches Some(p) && p@ == old(self).config.spec_current_song(now)),
    {
        let new_path = self.config.current_song(now);
        if new_path != self.current_track {
            self.current_track = new_path.clone();
            Some(new_path)
        } else {
            None
        }
    }

    /// How long to sleep until the next aligned tick from `now`.
    pub fn sleep_deadline(&self, now: TimeOfDay) -> (d: u64)
        requires
            self.wf(),
            now.wf(),
        ensures
            d == spec_sleep_duration(self.spec_effective_anchor(), now, self.config.update_interval),
            self.config.update_interval > 0 ==> 0 < d <= self.config.update_interval,
    {
        let anchor = match self.config.anchor_time {
            Some(a) => a,
            None => self.anchor_time,
        };
        calculate_sleep_duration(anchor, now, self.config.update_interval)
    }

    /// Reacts to the end of a bounded wait: a timeout keeps the active
    /// configuration; a replacement is validated and adopted, or rejected
    /// with the exact validation error, leaving the active one in place.
    pub fn on_wake(&mut self, outcome: WakeOutcome) -> (r: Result<bool, ConfigError>)
        requires
            old(self).wf(),
        ensures
            final(self).wf(),
            final(self).anchor_time == old(self).anchor_time,
            final(self).current_track == old(self).current_track,
            outcome matches WakeOutcome::TimedOut ==> (r == Ok::<bool, ConfigError>(false)
                && final(self).config == old(self).config),
            outcome matches WakeOutcome::Replaced(c) ==> {
                &&& c.valid() ==> (r == Ok::<bool, ConfigError>(true) && final(self).config
                    == c.spec_loaded())
                &&& !c.valid() ==> final(self).config == old(self).config
                &&& c.times@.len() == 0 ==> r == Err::<bool, ConfigError>(
                    ConfigError::EmptySchedule,
                )
                &&& (c.times@.len() > 0 && !c.times_valid()) ==> r == Err::<bool, ConfigError>(
                    ConfigError::InvalidTime,
                )
                &&& (c.times@.len() > 0 && c.times_valid() && !c.times_sorted()) ==> r
                    == Err::<bool, ConfigError>(ConfigError::UnsortedSchedule)
            },
    {
        match outcome {
            WakeOutcome::TimedOut => Ok(false),
            WakeOutcome::Replaced(c) => match c.to_loaded() {
                Ok(loaded) => {
                    self.config = loaded;
                    Ok(true)
                },
                Err(e) => Err(e),
            },
        }
    }
}

/// Replay is idempotent: pushing a configuration that loads to the already
/// active one through the live channel leaves the tick decision's inputs
/// unchanged, so a scheduler whose playing track matches its schedule at
/// `now` performs no track transition on the re-run tick.
pub proof fn lemma_replay_idempotent(s: Sleeper, c: Config, now: TimeOfDay)
    requires
        s.wf(),
        now.wf(),
        c.valid(),
        c.spec_loaded() == s.config,
        s.current_track@ == s.config.spec_current_song(now),
    ensures
        ({
            let replayed = Sleeper {
                config: c.spec_loaded(),
                anchor_time: s.anchor_time,
                current_track: s.current_track,
            };
            replayed.config.spec_current_song(now) == replayed.current_track@
        }),
{
}

} // verus!
