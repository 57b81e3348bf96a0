//! A small controller library for driving relay-backed devices (grow lights,
//! a misting pump, a fogger) from time-of-day windows and fixed duty cycles.
//!
//! The decision logic is pure and fully specified: window controllers compare
//! the current time of day against a fixed open interval, and the duty-cycle
//! controller toggles its line after a state-dependent elapsed threshold.

use vstd::prelude::*;

mod clock;
mod config;
mod cycle;
mod level;
mod line;
mod system;
mod time_of_day;
mod window;

pub use level::Level;
pub use line::AcquireError;
pub use line::MemLine;
pub use line::OutputLine;
pub use clock::instant_now;
pub use clock::millis_since;
pub use clock::read_wall_clock;
pub use config::fog_cycle;
pub use config::lights_window;
pub use config::mist_window;
pub use config::FOG_ACTIVE_LEVEL;
pub use config::FOG_LINE_ID;
pub use config::FOG_OFF_MS;
pub use config::FOG_ON_MS;
pub use config::LIGHTS_ACTIVE_LEVEL;
pub use config::LIGHTS_LINE_ID;
pub use config::LIGHTS_OFF_SECS;
pub use config::LIGHTS_ON_SECS;
pub use config::MIST_ACTIVE_LEVEL;
pub use config::MIST_LINE_ID;
pub use config::MIST_OFF_SECS;
pub use config::MIST_ON_SECS;
pub use config::POLL_INTERVAL_SECS;
pub use system::System;
pub use system::TickReport;
pub use cycle::cycle_run;
pub use cycle::cycle_step;
pub use cycle::elapsed_ms;
pub use cycle::lemma_active_holds;
pub use cycle::lemma_active_phase;
pub use cycle::lemma_active_switches;
pub use cycle::lemma_inactive_holds;
pub use cycle::lemma_inactive_phase;
pub use cycle::lemma_inactive_switches;
pub use cycle::lemma_step_idempotent;
pub use cycle::CycleConfig;
pub use cycle::CycleState;
pub use cycle::DutyCycleController;
pub use time_of_day::SECS_PER_DAY;
pub use time_of_day::TimeOfDay;
pub use window::WindowConfig;
pub use window::WindowController;

verus! {

} // verus!
