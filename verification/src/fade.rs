use vstd::prelude::*;

verus! {

/// One step of a linear fade-out: either set the sink's volume to
/// `remaining / total`, or stop the sink and end the fade.
#[derive(Clone, Copy, Debug, PartialEq, Eq, Structural)]
pub enum FadeStep {
    /// Set the volume to the fraction `remaining / total` (both in
    /// microseconds, `remaining <= total`, `total > 0`).
    Volume { remaining: u64, total: u64 },
    /// The fade is over: stop the sink and end the fade task.
    Stop,
}

/// The fade-out command `elapsed` microseconds after a fade of `duration`
/// microseconds began.
///
/// A zero duration stops at once, guarding the volume ratio against a zero
/// divisor; past the duration the fade stops; otherwise the volume ramps
/// linearly from full down to zero.
pub fn fade_volume(elapsed: u64, duration: u64) -> (s: FadeStep)
    ensures
        duration == 0 ==> s == FadeStep::Stop,
        elapsed > duration ==> s == FadeStep::Stop,
        (0 < duration && elapsed <= duration) ==> s == (FadeStep::Volume {
            remaining: (duration - elapsed) as u64,
            total: duration,
        }),
        s matches FadeStep::Volume { remaining, total } ==> remaining <= total && total > 0,
{
    if duration == 0 || elapsed > duration {
        FadeStep::Stop
    } else {
        FadeStep::Volume { remaining: duration - elapsed, total: duration }
    }
}

/// The pause between fade volume updates: a hundredth of the fade duration,
/// so the ramp runs in roughly one hundred steps.
pub fn fade_step_delay(duration: u64) -> (d: u64)
    ensures
        d == duration / 100,
{
    duration / 100
}

} // verus!
