use vstd::prelude::*;
use crate::level::Level;

verus! {

/// Why acquiring an output line failed. Any such failure is fatal at
/// startup: a controller is never built over a line it could not acquire.
#[derive(Clone, Copy, PartialEq, Eq, Structural, Debug)]
pub enum AcquireError {
    /// The line does not exist, is already bound, or access was denied.
    Unavailable,
}

/// The capability a controller needs from the output line it owns: drive the
/// device to its energized (active) or de-energized (inactive) state, and
/// read back the commanded state. "Active" is the device's logical on-state;
/// which electrical level that is belongs to the line's wiring, not to the
/// controller.
pub trait OutputLine: Sized {
    /// Whether the line is currently commanded to the device's active state.
    spec fn active(&self) -> bool;

    fn set_active(&mut self)
        ensures
            final(self).active(),
    ;

    fn set_inactive(&mut self)
        ensures
            !final(self).active(),
    ;

    fn is_active(&self) -> (r: bool)
        ensures
            r == self.active(),
    ;
}

/// An in-memory output line: it records the electrical level it was last
/// driven to, together with its wiring (which level energizes the device).
/// It stands in for a hardware line wherever no hardware is present.
#[derive(Clone, Copy, PartialEq, Eq, Structural, Debug)]
pub struct MemLine {
    /// The number of the hardware line this stands in for.
    pub line_id: u8,
    /// The electrical level that energizes the attached device.
    pub active_level: Level,
    /// The electrical level the line is currently driven to.
    pub level: Level,
}

impl MemLine {
    /// Acquire a simulated output line. `available` plays the role of the
    /// hardware's answer: when false, acquisition fails as an unavailable or
    /// already-bound hardware line would. A freshly acquired line starts
    /// de-energized.
    pub fn acquire(line_id: u8, active_level: Level, available: bool) -> (r: Result<
        MemLine,
        AcquireError,
    >)
        ensures
            r is Ok <==> available,
            r matches Ok(l) ==> l.line_id == line_id && l.active_level == active_level
                && !l.active(),
            r matches Err(e) ==> e == AcquireError::Unavailable,
    {
        if available {
            Ok(MemLine { line_id, active_level, level: active_level.flip() })
        } else {
            Err(AcquireError::Unavailable)
        }
    }
}

impl OutputLine for MemLine {
    /// The device is energized exactly when the driven level matches the
    /// level its wiring makes active.
    open spec fn active(&self) -> bool {
        self.level == self.active_level
    }

    fn set_active(&mut self)
        ensures
            final(self).level == old(self).active_level,
            final(self).active_level == old(self).active_level,
            final(self).line_id == old(self).line_id,
    {
        self.level = self.active_level;
    }

    fn set_inactive(&mut self)
        ensures
            final(self).level == old(self).active_level.flip_spec(),
            final(self).active_level == old(self).active_level,
            final(self).line_id == old(self).line_id,
    {
        self.level = self.active_level.flip();
    }

    fn is_active(&self) -> (r: bool)
        ensures
            r == self.active(),
    {
        self.level == self.active_level
    }
}

} // verus!
