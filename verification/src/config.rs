use vstd::prelude::*;
use crate::cycle::CycleConfig;
use crate::level::Level;
use crate::window::WindowConfig;

verus! {

/// Hardware line numbers of the three devices.
pub const LIGHTS_LINE_ID: u8 = 27;

pub const MIST_LINE_ID: u8 = 22;

pub const FOG_LINE_ID: u8 = 17;

/// The grow-light relay energizes on the high level.
pub const LIGHTS_ACTIVE_LEVEL: Level = Level::High;

/// The misting relay is wired inverted: the low level energizes it.
pub const MIST_ACTIVE_LEVEL: Level = Level::Low;

/// The fogger relay is wired inverted as well.
pub const FOG_ACTIVE_LEVEL: Level = Level::Low;

/// The lights are on strictly between 07:00 and 21:00.
pub const LIGHTS_ON_SECS: u32 = 7 * 3600;

pub const LIGHTS_OFF_SECS: u32 = 21 * 3600;

/// The misting pump runs strictly between 19:00 and 19:01.
pub const MIST_ON_SECS: u32 = 19 * 3600;

pub const MIST_OFF_SECS: u32 = 19 * 3600 + 60;

/// The fogger runs for 10 minutes, then rests for 30.
pub const FOG_ON_MS: u64 = 10 * 60 * 1000;

pub const FOG_OFF_MS: u64 = 30 * 60 * 1000;

/// The scheduler re-evaluates every controller on this period.
pub const POLL_INTERVAL_SECS: u64 = 3;

/// The lights' daily window, as configured.
pub fn lights_window() -> (r: WindowConfig)
    ensures
        r == (WindowConfig { on_secs: LIGHTS_ON_SECS, off_secs: LIGHTS_OFF_SECS }),
        r.wf(),
{
    WindowConfig { on_secs: LIGHTS_ON_SECS, off_secs: LIGHTS_OFF_SECS }
}

/// The misting pump's daily window, as configured.
pub fn mist_window() -> (r: WindowConfig)
    ensures
        r == (WindowConfig { on_secs: MIST_ON_SECS, off_secs: MIST_OFF_SECS }),
        r.wf(),
{
    WindowConfig { on_secs: MIST_ON_SECS, off_secs: MIST_OFF_SECS }
}

/// The fogger's duty cycle, as configured.
pub fn fog_cycle() -> (r: CycleConfig)
    ensures
        r == (CycleConfig { on_ms: FOG_ON_MS, off_ms: FOG_OFF_MS }),
        r.wf(),
{
    CycleConfig { on_ms: FOG_ON_MS, off_ms: FOG_OFF_MS }
}

} // verus!
