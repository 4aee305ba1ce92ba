use vstd::prelude::*;
use crate::time::TimeOfDay;

verus! {

/// One schedule entry: a track reference that becomes active at `time`.
pub struct ScheduleEntry {
    pub time: TimeOfDay,
    pub track: String,
}

/// An ordered time-of-day → track mapping with unique, strictly ascending
/// keys, queried cyclically over 24 hours.
pub struct Schedule {
    pub entries: Vec<ScheduleEntry>,
}

/// The greatest index whose entry time is at most `t`, or `-1` when every
/// entry time exceeds `t`. Meaningful for sorted sequences, where it picks
/// the greatest scheduled time at or before `t`.
pub open spec fn largest_le(entries: Seq<ScheduleEntry>, t: u64) -> int
    decreases entries.len(),
{
    if entries.len() == 0 {
        -1
    } else if entries.last().time.micros <= t {
        entries.len() - 1
    } else {
        largest_le(entries.drop_last(), t)
    }
}

/// The least index whose entry time is strictly greater than `t`, or `-1`
/// when no entry time exceeds `t`. Meaningful for sorted sequences, where it
/// picks the least scheduled time after `t`.
pub open spec fn smallest_gt(entries: Seq<ScheduleEntry>, t: u64) -> int
    decreases entries.len(),
{
    if entries.len() == 0 {
        -1
    } else if entries.first().time.micros > t {
        0
    } else if smallest_gt(entries.drop_first(), t) == -1 {
        -1
    } else {
        smallest_gt(entries.drop_first(), t) + 1
    }
}

/// `largest_le` indeed returns the last index at or below `t`: everything
/// after it is later than `t`, and `-1` means everything is.
pub proof fn lemma_largest_le(entries: Seq<ScheduleEntry>, t: u64)
    ensures
        -1 <= largest_le(entries, t) < entries.len(),
        largest_le(entries, t) == -1 ==> forall|k: int|
            0 <= k < entries.len() ==> (#[trigger] entries[k]).time.micros > t,
        largest_le(entries, t) >= 0 ==> entries[largest_le(entries, t)].time.micros <= t,
        forall|k: int|
            largest_le(entries, t) < k < entries.len() ==> (#[trigger] entries[k]).time.micros
                > t,
    decreases entries.len(),
{
    if entries.len() == 0 {
    } else if entries.last().time.micros <= t {
    } else {
        lemma_largest_le(entries.drop_last(), t);
        assert forall|k: int|
            largest_le(entries, t) < k < entries.len() implies (#[trigger] entries[k]).time.micros
            > t by {
            if k < entries.len() - 1 {
                assert(entries.drop_last()[k] == entries[k]);
            }
        }
        if largest_le(entries, t) == -1 {
            assert forall|k: int| 0 <= k < entries.len() implies (#[trigger] entries[k]).time.micros
                > t by {
                if k < entries.len() - 1 {
                    assert(entries.drop_last()[k] == entries[k]);
                }
            }
        }
        if largest_le(entries, t) >= 0 {
            assert(entries.drop_last()[largest_le(entries, t)] == entries[largest_le(entries, t)]);
        }
    }
}

/// `smallest_gt` indeed returns the first index after `t`: everything before
/// it is at or below `t`, and `-1` means everything is.
pub proof fn lemma_smallest_gt(entries: Seq<ScheduleEntry>, t: u64)
    ensures
        -1 <= smallest_gt(entries, t) < entries.len(),
        smallest_gt(entries, t) == -1 ==> forall|k: int|
            0 <= k < entries.len() ==> (#[trigger] entries[k]).time.micros <= t,
        smallest_gt(entries, t) >= 0 ==> entries[smallest_gt(entries, t)].time.micros > t,
        forall|k: int|
            0 <= k < smallest_gt(entries, t) ==> (#[trigger] entries[k]).time.micros <= t,
    decreases entries.len(),
{
    if entries.len() == 0 {
    } else if entries.first().time.micros > t {
    } else {
        lemma_smallest_gt(entries.drop_first(), t);
        let r = smallest_gt(entries.drop_first(), t);
        if r == -1 {
            assert forall|k: int| 0 <= k < entries.len() implies (#[trigger] entries[k]).time.micros
                <= t by {
                if k >= 1 {
                    assert(entries.drop_first()[k - 1] == entries[k]);
                }
            }
        } else {
            assert(entries.drop_first()[r] == entries[r + 1]);
            assert forall|k: int|
                0 <= k < smallest_gt(entries, t) implies (#[trigger] entries[k]).time.micros
                <= t by {
                if k >= 1 {
                    assert(entries.drop_first()[k - 1] == entries[k]);
                }
            }
        }
    }
}

impl Schedule {
    pub open spec fn len(self) -> int {
        self.entries@.len() as int
    }

    /// A schedule is valid when it is non-empty, every entry time is a valid
    /// time of day, and entry times are strictly ascending (hence unique).
    pub open spec fn wf(self) -> bool {
        &&& self.entries@.len() > 0
        &&& forall|i: int|
            0 <= i < self.len() ==> (#[trigger] self.entries@[i]).time.wf()
        &&& forall|i: int, j: int|
            0 <= i < j < self.len() ==> (#[trigger] self.entries@[i]).time.micros < (
            #[trigger] self.entries@[j]).time.micros
    }

    /// The index whose track is active at `t`: the greatest scheduled time
    /// at or before `t`, or the latest entry when `t` precedes them all.
    pub open spec fn current_idx(self, t: TimeOfDay) -> int {
        if largest_le(self.entries@, t.micros) >= 0 {
            largest_le(self.entries@, t.micros)
        } else {
            self.len() - 1
        }
    }

    /// The index of the entry that follows `t`: the least scheduled time
    /// strictly after `t`, or the earliest entry when none follows.
    pub open spec fn next_idx(self, t: TimeOfDay) -> int {
        if smallest_gt(self.entries@, t.micros) >= 0 {
            smallest_gt(self.entries@, t.micros)
        } else {
            0
        }
    }

    /// The track active at `t`, as a sequence of characters.
    pub open spec fn spec_current(self, t: TimeOfDay) -> Seq<char> {
        self.entries@[self.current_idx(t)].track@
    }

    /// The scheduled time and track of the entry that follows `t`.
    pub open spec fn spec_next(self, t: TimeOfDay) -> (TimeOfDay, Seq<char>) {
        (self.entries@[self.next_idx(t)].time, self.entries@[self.next_idx(t)].track@)
    }

    /// Returns the track whose scheduled time is the greatest at or before
    /// `time`, wrapping to the latest entry when `time` precedes every entry.
    pub fn current(&self, time: TimeOfDay) -> (r: &String)
        requires
            self.wf(),
        ensures
            r@ == self.spec_current(time),
    {
        proof {
            lemma_largest_le(self.entries@, time.micros);
        }
        let n = self.entries.len();
        let mut i: usize = n;
        while i > 0
            invariant
                self.wf(),
                n == self.entries@.len(),
                i <= n,
                forall|k: int|
                    i <= k < n ==> (#[trigger] self.entries@[k]).time.micros > time.micros,
            decreases i,
        {
            i = i - 1;
            if self.entries[i].time.micros <= time.micros {
                proof {
                    lemma_largest_le(self.entries@, time.micros);
                    assert(largest_le(self.entries@, time.micros) == i);
                }
                return &self.entries[i].track;
            }
        }
        proof {
            lemma_largest_le(self.entries@, time.micros);
            assert(largest_le(self.entries@, time.micros) == -1);
        }
        &self.entries[n - 1].track
    }

    /// Returns the scheduled time and track of the earliest entry strictly
    /// after `time`, wrapping to the earliest entry when none follows.
    pub fn next(&self, time: TimeOfDay) -> (r: (TimeOfDay, &String))
        requires
            self.wf(),
        ensures
            r.0 == self.spec_next(time).0,
            r.1@ == self.spec_next(time).1,
    {
        let n = self.entries.len();
        let mut i: usize = 0;
        while i < n
            invariant
                self.wf(),
                n == self.entries@.len(),
                i <= n,
                forall|k: int|
                    0 <= k < i ==> (#[trigger] self.entries@[k]).time.micros <= time.micros,
            decreases n - i,
        {
            if self.entries[i].time.micros > time.micros {
                proof {
                    lemma_smallest_gt(self.entries@, time.micros);
                    assert(smallest_gt(self.entries@, time.micros) == i);
                }
                return (self.entries[i].time, &self.entries[i].track);
            }
            i = i + 1;
        }
        proof {
            lemma_smallest_gt(self.entries@, time.micros);
            assert(smallest_gt(self.entries@, time.micros) == -1);
        }
        (self.entries[0].time, &self.entries[0].track)
    }
}

/// The law of cyclic lookup, forward direction: on a valid schedule,
/// `current` picks the greatest scheduled time at or before `t`; when `t`
/// precedes every scheduled time it wraps to the greatest scheduled time
/// overall.
pub proof fn lemma_current_wraparound(s: Schedule, t: TimeOfDay)
    requires
        s.wf(),
    ensures
        0 <= s.current_idx(t) < s.len(),
        (exists|k: int| 0 <= k < s.len() && (#[trigger] s.entries@[k]).time.micros <= t.micros)
            ==> {
            &&& s.entries@[s.current_idx(t)].time.micros <= t.micros
            &&& forall|k: int|
                0 <= k < s.len() && (#[trigger] s.entries@[k]).time.micros <= t.micros
                    ==> s.entries@[k].time.micros <= s.entries@[s.current_idx(t)].time.micros
        },
        !(exists|k: int| 0 <= k < s.len() && (#[trigger] s.entries@[k]).time.micros <= t.micros)
            ==> {
            &&& s.current_idx(t) == s.len() - 1
            &&& forall|k: int|
                0 <= k < s.len() ==> (#[trigger] s.entries@[k]).time.micros
                    <= s.entries@[s.current_idx(t)].time.micros
        },
        s.spec_current(t) == s.entries@[s.current_idx(t)].track@,
{
    lemma_largest_le(s.entries@, t.micros);
    let i = s.current_idx(t);
    if largest_le(s.entries@, t.micros) >= 0 {
        assert forall|k: int|
            0 <= k < s.len() && (#[trigger] s.entries@[k]).time.micros <= t.micros
            implies s.entries@[k].time.micros <= s.entries@[i].time.micros by {
            if k > i {
                assert(s.entries@[k].time.micros > t.micros);
            }
        }
    } else {
        assert forall|k: int|
            0 <= k < s.len() implies (#[trigger] s.entries@[k]).time.micros
            <= s.entries@[i].time.micros by {
            if k < i {
                assert(s.entries@[k].time.micros < s.entries@[i].time.micros);
            }
        }
    }
}

/// The law of cyclic lookup, onward direction: on a valid schedule, `next`
/// picks the least scheduled time strictly after `t`; when every scheduled
/// time is at or before `t` it wraps to the least scheduled time overall.
pub proof fn lemma_next_wraparound(s: Schedule, t: TimeOfDay)
    requires
        s.wf(),
    ensures
        0 <= s.next_idx(t) < s.len(),
        (exists|k: int| 0 <= k < s.len() && (#[trigger] s.entries@[k]).time.micros > t.micros)
            ==> {
            &&& s.entries@[s.next_idx(t)].time.micros > t.micros
            &&& forall|k: int|
                0 <= k < s.len() && (#[trigger] s.entries@[k]).time.micros > t.micros
                    ==> s.entries@[s.next_idx(t)].time.micros <= s.entries@[k].time.micros
        },
        !(exists|k: int| 0 <= k < s.len() && (#[trigger] s.entries@[k]).time.micros > t.micros)
            ==> {
            &&& s.next_idx(t) == 0
            &&& forall|k: int|
                0 <= k < s.len() ==> s.entries@[s.next_idx(t)].time.micros <= (
                #[trigger] s.entries@[k]).time.micros
        },
        s.spec_next(t) == (s.entries@[s.next_idx(t)].time, s.entries@[s.next_idx(t)].track@),
{
    lemma_smallest_gt(s.entries@, t.micros);
    let i = s.next_idx(t);
    if smallest_gt(s.entries@, t.micros) >= 0 {
        assert forall|k: int|
            0 <= k < s.len() && (#[trigger] s.entries@[k]).time.micros > t.micros
            implies s.entries@[i].time.micros <= s.entries@[k].time.micros by {
            if k < i {
                assert(s.entries@[k].time.micros <= t.micros);
            }
        }
    } else {
        assert forall|k: int|
            0 <= k < s.len() implies s.entries@[i].time.micros <= (
        #[trigger] s.entries@[k]).time.micros by {
            if k > 0 {
                assert(s.entries@[0].time.micros < s.entries@[k].time.micros);
            }
        }
    }
}

} // verus!
