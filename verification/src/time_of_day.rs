use vstd::prelude::*;

verus! {

/// Seconds in one day; a time of day is always strictly below this.
pub const SECS_PER_DAY: u32 = 24 * 60 * 60;

/// A wall-clock time of day, counted in whole seconds since midnight.
#[derive(Clone, Copy, PartialEq, Eq, Structural, Debug)]
pub struct TimeOfDay {
    pub secs: u32,
}

impl TimeOfDay {
    /// A time of day lies within a single day.
    pub open spec fn wf(self) -> bool {
        self.secs < SECS_PER_DAY
    }

    /// Build a time of day from hour, minute and second components.
    pub fn from_hms(hour: u8, minute: u8, second: u8) -> (r: TimeOfDay)
        requires
            hour < 24,
            minute < 60,
            second < 60,
        ensures
            r.secs == hour * 3600 + minute * 60 + second,
            r.wf(),
    {
        TimeOfDay { secs: hour as u32 * 3600 + minute as u32 * 60 + second as u32 }
    }
}

} // verus!
