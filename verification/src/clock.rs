use vstd::prelude::*;
use crate::time::{spec_since, TimeOfDay};

verus! {

/// The drift-compensated wait before the next tick.
///
/// Ticks are aligned to `anchor` modulo `update_interval` (both in
/// microseconds), so the wait depends only on where `now` falls within the
/// current interval, not on when the previous tick actually fired.
pub open spec fn spec_sleep_duration(
    anchor: TimeOfDay,
    now: TimeOfDay,
    update_interval: u64,
) -> int {
    if update_interval == 0 {
        1
    } else if spec_since(now, anchor) % (update_interval as int) == 0 {
        update_interval as int
    } else {
        update_interval - spec_since(now, anchor) % (update_interval as int)
    }
}

/// Computes how long to sleep so that the next wake-up lands on the tick
/// grid anchored at `anchor` with period `update_interval` microseconds.
///
/// The result is always positive: an aligned `now` yields a full interval
/// rather than a zero-length sleep, and a zero interval yields a floor of
/// one microsecond instead of a busy loop.
pub fn calculate_sleep_duration(
    anchor: TimeOfDay,
    now: TimeOfDay,
    update_interval: u64,
) -> (d: u64)
    requires
        anchor.wf(),
        now.wf(),
    ensures
        d == spec_sleep_duration(anchor, now, update_interval),
        update_interval > 0 ==> 0 < d <= update_interval,
        update_interval > 0 ==> (d == update_interval <==> spec_since(now, anchor)
            % (update_interval as int) == 0),
{
    if update_interval == 0 {
        return 1;
    }
    let elapsed: u64 = now.since(anchor);
    let remainder: u64 = elapsed % update_interval;
    assert(0 <= remainder < update_interval) by {
        vstd::arithmetic::div_mod::lemma_mod_bound(elapsed as int, update_interval as int);
    };
    if remainder == 0 {
        update_interval
    } else {
        update_interval - remainder
    }
}

} // verus!
