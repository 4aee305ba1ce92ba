use hourly_music::schedule::{Schedule, ScheduleEntry};
use hourly_music::time::TimeOfDay;

fn hms(h: u64, m: u64, s: u64) -> TimeOfDay {
    TimeOfDay::from_hms(h, m, s).unwrap()
}

fn entry(h: u64, track: &str) -> ScheduleEntry {
    ScheduleEntry { time: hms(h, 0, 0), track: track.to_string() }
}

fn abc_schedule() -> Schedule {
    Schedule { entries: vec![entry(6, "a"), entry(12, "b"), entry(18, "c")] }
}

#[test]
fn current_between_entries() {
    let s = abc_schedule();
    assert_eq!(s.current(hms(9, 0, 0)), "a");
}

#[test]
fn current_after_last_entry() {
    let s = abc_schedule();
    assert_eq!(s.current(hms(23, 0, 0)), "c");
}

#[test]
fn current_wraps_to_latest() {
    let s = abc_schedule();
    assert_eq!(s.current(hms(3, 0, 0)), "c");
}

#[test]
fn current_at_exact_key() {
    let s = abc_schedule();
    assert_eq!(s.current(hms(6, 0, 0)), "a");
    assert_eq!(s.current(hms(18, 0, 0)), "c");
}

#[test]
fn next_wraps_to_earliest() {
    let s = abc_schedule();
    let (t, track) = s.next(hms(23, 0, 0));
    assert_eq!(t, hms(6, 0, 0));
    assert_eq!(track, "a");
}

#[test]
fn next_between_entries() {
    let s = abc_schedule();
    let (t, track) = s.next(hms(9, 0, 0));
    assert_eq!(t, hms(12, 0, 0));
    assert_eq!(track, "b");
}

#[test]
fn next_at_exact_key_is_strictly_later() {
    let s = abc_schedule();
    let (t, track) = s.next(hms(6, 0, 0));
    assert_eq!(t, hms(12, 0, 0));
    assert_eq!(track, "b");
}

#[test]
fn single_entry_schedule_is_constant() {
    let s = Schedule { entries: vec![entry(12, "only")] };
    assert_eq!(s.current(hms(0, 0, 0)), "only");
    assert_eq!(s.current(hms(12, 0, 0)), "only");
    assert_eq!(s.current(hms(23, 59, 59)), "only");
    let (t, track) = s.next(hms(12, 0, 0));
    assert_eq!(t, hms(12, 0, 0));
    assert_eq!(track, "only");
}
