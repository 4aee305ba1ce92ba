use hourly_music::time::{TimeOfDay, DAY_MICROS};

#[test]
fn from_micros_accepts_within_day() {
    assert_eq!(TimeOfDay::from_micros(0), Some(TimeOfDay { micros: 0 }));
    assert_eq!(
        TimeOfDay::from_micros(DAY_MICROS - 1),
        Some(TimeOfDay { micros: DAY_MICROS - 1 })
    );
}

#[test]
fn from_micros_rejects_a_full_day() {
    assert_eq!(TimeOfDay::from_micros(DAY_MICROS), None);
    assert_eq!(TimeOfDay::from_micros(DAY_MICROS + 1), None);
}

#[test]
fn from_hms_builds_microseconds() {
    let t = TimeOfDay::from_hms(1, 2, 3).unwrap();
    assert_eq!(t.micros, (3600u64 + 2 * 60 + 3) * 1_000_000);
}

#[test]
fn from_hms_rejects_out_of_range_fields() {
    assert_eq!(TimeOfDay::from_hms(24, 0, 0), None);
    assert_eq!(TimeOfDay::from_hms(0, 60, 0), None);
    assert_eq!(TimeOfDay::from_hms(0, 0, 60), None);
}

#[test]
fn since_measures_forward() {
    let a = TimeOfDay { micros: 1_000_000 };
    let b = TimeOfDay { micros: 4_000_000 };
    assert_eq!(b.since(a), 3_000_000);
    assert_eq!(a.since(a), 0);
}

#[test]
fn since_wraps_through_midnight() {
    let late = TimeOfDay { micros: DAY_MICROS - 1_000_000 };
    let early = TimeOfDay { micros: 2_000_000 };
    assert_eq!(early.since(late), 3_000_000);
}
