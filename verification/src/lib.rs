//! A time-of-day track scheduler: an ordered schedule queried cyclically,
//! a drift-compensated wake-up clock, and a live-reload state machine that
//! adopts replacement configurations without restarting playback.

pub mod clock;
pub mod config;
pub mod fade;
pub mod schedule;
pub mod scheduler;
pub mod time;
