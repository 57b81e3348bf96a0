use vstd::prelude::*;
use crate::cycle::cycle_step;
use crate::cycle::CycleConfig;
use crate::cycle::DutyCycleController;
use crate::line::AcquireError;
use crate::line::OutputLine;
use crate::time_of_day::TimeOfDay;
use crate::window::WindowConfig;
use crate::window::WindowController;

verus! {

/// The three device controllers the scheduler drives: the fogger on its duty
/// cycle, the misting pump and the grow lights each on a daily window.
pub struct System<L: OutputLine> {
    pub fog: DutyCycleController<L>,
    pub mist: WindowController<L>,
    pub lights: WindowController<L>,
}

/// What one scheduler pass observed: the fogger's monotonic instant, and the
/// wall-clock times the mist and lights decisions were made for (None where
/// the local clock could not be read, leaving that line untouched).
pub struct TickReport {
    pub fog_now_ms: u64,
    pub mist_time: Option<TimeOfDay>,
    pub lights_time: Option<TimeOfDay>,
}

impl<L: OutputLine> System<L> {
    /// Build the three controllers from freshly acquired lines, in the order
    /// fog, mist, lights. Any acquisition failure aborts construction — the
    /// first failure in that order is returned, and no controller ever runs.
    pub fn new(
        fog_line: Result<L, AcquireError>,
        mist_line: Result<L, AcquireError>,
        lights_line: Result<L, AcquireError>,
        fog_cfg: CycleConfig,
        mist_cfg: WindowConfig,
        lights_cfg: WindowConfig,
    ) -> (r: Result<System<L>, AcquireError>)
        ensures
            r is Ok <==> (fog_line is Ok && mist_line is Ok && lights_line is Ok),
            fog_line matches Err(e) ==> r == Result::<System<L>, AcquireError>::Err(e),
            fog_line is Ok ==> (mist_line matches Err(e) ==> r == Result::<
                System<L>,
                AcquireError,
            >::Err(e)),
            fog_line is Ok && mist_line is Ok ==> (lights_line matches Err(e) ==> r == Result::<
                System<L>,
                AcquireError,
            >::Err(e)),
            r matches Ok(s) ==> {
                &&& s.fog.cfg == fog_cfg
                &&& !s.fog.state().active
                &&& s.fog.state().last_switch_ms == 0
                &&& s.mist.cfg == mist_cfg
                &&& s.mist.line == mist_line->Ok_0
                &&& s.lights.cfg == lights_cfg
                &&& s.lights.line == lights_line->Ok_0
            },
    {
        let fog_line = match fog_line {
            Ok(l) => l,
            Err(e) => {
                return Err(e);
            },
        };
        let mist_line = match mist_line {
            Ok(l) => l,
            Err(e) => {
                return Err(e);
            },
        };
        let lights_line = match lights_line {
            Ok(l) => l,
            Err(e) => {
                return Err(e);
            },
        };
        Ok(
            System {
                fog: DutyCycleController::new(fog_cfg, fog_line),
                mist: WindowController::new(mist_cfg, mist_line),
                lights: WindowController::new(lights_cfg, lights_line),
            },
        )
    }

    /// One scheduler pass: update fog, then mist, then lights, each against
    /// the clock it owns. Each controller's new state is exactly one
    /// evaluation of its rule at the observed time.
    pub fn tick(&mut self) -> (r: TickReport)
        ensures
            final(self).fog.cfg == old(self).fog.cfg,
            final(self).mist.cfg == old(self).mist.cfg,
            final(self).lights.cfg == old(self).lights.cfg,
            final(self).fog.state() == cycle_step(
                old(self).fog.cfg,
                old(self).fog.state(),
                r.fog_now_ms,
            ),
            r.mist_time matches Some(t) ==> t.wf() && final(self).mist.line.active() == old(
                self,
            ).mist.cfg.contains(t),
            r.mist_time is None ==> final(self).mist == old(self).mist,
            r.lights_time matches Some(t) ==> t.wf() && final(self).lights.line.active() == old(
                self,
            ).lights.cfg.contains(t),
            r.lights_time is None ==> final(self).lights == old(self).lights,
    {
        let fog_now_ms = self.fog.update();
        let mist_time = self.mist.update();
        let lights_time = self.lights.update();
        TickReport { fog_now_ms, mist_time, lights_time }
    }
}

} // verus!
