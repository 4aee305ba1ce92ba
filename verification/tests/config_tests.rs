use hourly_music::config::{
    Config, ConfigError, DEFAULT_FADE_MICROS, DEFAULT_UPDATE_INTERVAL_MICROS,
};
use hourly_music::schedule::ScheduleEntry;
use hourly_music::time::{TimeOfDay, DAY_MICROS};

fn hms(h: u64, m: u64, s: u64) -> TimeOfDay {
    TimeOfDay::from_hms(h, m, s).unwrap()
}

fn entry(h: u64, track: &str) -> ScheduleEntry {
    ScheduleEntry { time: hms(h, 0, 0), track: track.to_string() }
}

fn bare_config(times: Vec<ScheduleEntry>) -> Config {
    Config {
        initial_fade: None,
        fade_in: None,
        fade_out: None,
        update_interval: None,
        anchor_time: None,
        dir: None,
        times,
    }
}

#[test]
fn defaults_applied_when_absent() {
    let loaded = bare_config(vec![entry(6, "a")]).to_loaded().unwrap();
    assert_eq!(loaded.fade_in, DEFAULT_FADE_MICROS);
    assert_eq!(loaded.fade_out, DEFAULT_FADE_MICROS);
    assert_eq!(loaded.initial_fade, DEFAULT_FADE_MICROS);
    assert_eq!(loaded.update_interval, DEFAULT_UPDATE_INTERVAL_MICROS);
}

#[test]
fn initial_fade_defaults_to_given_fade_in() {
    let mut config = bare_config(vec![entry(6, "a")]);
    config.fade_in = Some(2_000_000);
    let loaded = config.to_loaded().unwrap();
    assert_eq!(loaded.fade_in, 2_000_000);
    assert_eq!(loaded.initial_fade, 2_000_000);
    assert_eq!(loaded.fade_out, DEFAULT_FADE_MICROS);
}

#[test]
fn explicit_settings_kept() {
    let mut config = bare_config(vec![entry(6, "a")]);
    config.initial_fade = Some(1_000_000);
    config.fade_in = Some(2_000_000);
    config.fade_out = Some(3_000_000);
    config.update_interval = Some(30_000_000);
    config.anchor_time = Some(hms(1, 2, 3));
    let loaded = config.to_loaded().unwrap();
    assert_eq!(loaded.initial_fade, 1_000_000);
    assert_eq!(loaded.fade_in, 2_000_000);
    assert_eq!(loaded.fade_out, 3_000_000);
    assert_eq!(loaded.update_interval, 30_000_000);
    assert_eq!(loaded.anchor_time, Some(hms(1, 2, 3)));
}

#[test]
fn empty_schedule_rejected() {
    let r = bare_config(vec![]).to_loaded();
    assert!(matches!(r, Err(ConfigError::EmptySchedule)));
}

#[test]
fn out_of_range_time_rejected() {
    let bad = ScheduleEntry { time: TimeOfDay { micros: DAY_MICROS }, track: "a".to_string() };
    let r = bare_config(vec![bad]).to_loaded();
    assert!(matches!(r, Err(ConfigError::InvalidTime)));
}

#[test]
fn out_of_range_anchor_rejected() {
    let mut config = bare_config(vec![entry(6, "a")]);
    config.anchor_time = Some(TimeOfDay { micros: DAY_MICROS + 7 });
    let r = config.to_loaded();
    assert!(matches!(r, Err(ConfigError::InvalidTime)));
}

#[test]
fn unsorted_schedule_rejected() {
    let r = bare_config(vec![entry(12, "b"), entry(6, "a")]).to_loaded();
    assert!(matches!(r, Err(ConfigError::UnsortedSchedule)));
}

#[test]
fn duplicate_times_rejected() {
    let r = bare_config(vec![entry(6, "a"), entry(6, "b")]).to_loaded();
    assert!(matches!(r, Err(ConfigError::UnsortedSchedule)));
}

#[test]
fn from_loaded_round_trip() {
    let mut config = bare_config(vec![entry(6, "a"), entry(18, "c")]);
    config.fade_in = Some(2_000_000);
    let loaded = config.to_loaded().unwrap();
    let raw = Config::from_loaded(loaded);
    assert_eq!(raw.fade_in, Some(2_000_000));
    assert_eq!(raw.fade_out, Some(DEFAULT_FADE_MICROS));
    assert_eq!(raw.initial_fade, Some(2_000_000));
    assert_eq!(raw.update_interval, Some(DEFAULT_UPDATE_INTERVAL_MICROS));
    assert_eq!(raw.times.len(), 2);
    assert_eq!(raw.times[1].track, "c");
    // Loading the rebuilt settings changes nothing.
    let again = raw.to_loaded().unwrap();
    assert_eq!(again.fade_in, 2_000_000);
    assert_eq!(again.schedule.entries.len(), 2);
}

#[test]
fn current_song_joins_base_directory() {
    let mut config = bare_config(vec![entry(6, "a.ogg"), entry(18, "c.ogg")]);
    config.dir = Some("music".to_string());
    let loaded = config.to_loaded().unwrap();
    assert_eq!(loaded.current_song(hms(9, 0, 0)), "music/a.ogg");
    assert_eq!(loaded.current_song(hms(3, 0, 0)), "music/c.ogg");
}

#[test]
fn current_song_without_base_directory() {
    let loaded = bare_config(vec![entry(6, "a.ogg")]).to_loaded().unwrap();
    assert_eq!(loaded.current_song(hms(9, 0, 0)), "a.ogg");
}

#[test]
fn next_song_resolves_and_wraps() {
    let mut config = bare_config(vec![entry(6, "a.ogg"), entry(18, "c.ogg")]);
    config.dir = Some("music".to_string());
    let loaded = config.to_loaded().unwrap();
    let (t, path) = loaded.next_song(hms(23, 0, 0));
    assert_eq!(t, hms(6, 0, 0));
    assert_eq!(path, "music/a.ogg");
}
