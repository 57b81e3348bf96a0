use vstd::prelude::*;
use crate::clock;
use crate::line::OutputLine;
use crate::time_of_day::SECS_PER_DAY;
use crate::time_of_day::TimeOfDay;

verus! {

/// A daily schedule window: the device is meant to be on strictly between
/// `on_secs` and `off_secs` (both in seconds since midnight). Both boundary
/// instants count as off, and a window never crosses midnight.
#[derive(Clone, Copy, PartialEq, Eq, Structural, Debug)]
pub struct WindowConfig {
    pub on_secs: u32,
    pub off_secs: u32,
}

impl WindowConfig {
    /// A window lies within one day and does not cross midnight.
    pub open spec fn wf(self) -> bool {
        self.on_secs <= self.off_secs && self.off_secs < SECS_PER_DAY
    }

    /// Whether the device is meant to be on at time `t`: strictly inside the
    /// window, with both endpoints excluded.
    pub open spec fn contains(self, t: TimeOfDay) -> bool {
        self.on_secs < t.secs && t.secs < self.off_secs
    }
}

/// A controller that holds its owned line active exactly while the wall
/// clock is strictly inside a fixed daily window: the lights and the
/// misting pump are both of this kind. It is stateless beyond the line.
pub struct WindowController<L: OutputLine> {
    pub cfg: WindowConfig,
    pub line: L,
}

impl<L: OutputLine> WindowController<L> {
    pub fn new(cfg: WindowConfig, line: L) -> (r: Self)
        ensures
            r.cfg == cfg,
            r.line == line,
    {
        WindowController { cfg, line }
    }

    /// Drive the line for the given time of day: active strictly inside the
    /// window, inactive otherwise. The write is unconditional on every call,
    /// so repeating the call with the same time commands the same state.
    pub fn apply(&mut self, now: TimeOfDay)
        ensures
            final(self).cfg == old(self).cfg,
            final(self).line.active() == old(self).cfg.contains(now),
    {
        if self.cfg.on_secs < now.secs && now.secs < self.cfg.off_secs {
            self.line.set_active();
        } else {
            self.line.set_inactive();
        }
    }

    /// Read the local wall clock and drive the line for it. Returns the time
    /// the decision was made for, or None (leaving the line untouched) when
    /// the local clock could not be read.
    pub fn update(&mut self) -> (r: Option<TimeOfDay>)
        ensures
            final(self).cfg == old(self).cfg,
            r matches Some(t) ==> t.wf() && final(self).line.active() == old(self).cfg.contains(
                t,
            ),
            r is None ==> *final(self) == *old(self),
    {
        match clock::read_wall_clock() {
            Some(t) => {
                self.apply(t);
                Some(t)
            },
            None => None,
        }
    }
}

} // verus!
