use vstd::prelude::*;
use crate::clock;
use crate::line::OutputLine;

verus! {

/// A fixed, asymmetric duty cycle: once switched on, the device stays on for
/// `on_ms` milliseconds; once switched off, it stays off for `off_ms`.
#[derive(Clone, Copy, PartialEq, Eq, Structural, Debug)]
pub struct CycleConfig {
    pub on_ms: u64,
    pub off_ms: u64,
}

impl CycleConfig {
    /// Both phases last some positive time; a zero phase would let a single
    /// instant toggle the device twice.
    pub open spec fn wf(self) -> bool {
        0 < self.on_ms && 0 < self.off_ms
    }
}

/// The pure model of a duty-cycle controller: whether the device is
/// commanded active, and the instant (in milliseconds on the controller's
/// monotonic timeline) of the last switch.
#[derive(Clone, Copy, PartialEq, Eq, Structural, Debug)]
pub struct CycleState {
    pub active: bool,
    pub last_switch_ms: u64,
}

/// Milliseconds elapsed since the last switch, as an observation at `now_ms`
/// sees it. The monotonic clock never runs backwards, so an observation
/// before the last switch can only be a stale reading: it counts as zero.
pub open spec fn elapsed_ms(s: CycleState, now_ms: u64) -> u64 {
    if s.last_switch_ms <= now_ms {
        (now_ms - s.last_switch_ms) as u64
    } else {
        0
    }
}

/// One evaluation of the duty cycle at instant `now_ms`: an active device
/// switches off once its on-phase has fully elapsed, an inactive one
/// switches on once its off-phase has; below the threshold nothing changes.
/// A switch resets the reference instant to `now_ms`.
pub open spec fn cycle_step(cfg: CycleConfig, s: CycleState, now_ms: u64) -> CycleState {
    if s.active {
        if elapsed_ms(s, now_ms) >= cfg.on_ms {
            CycleState { active: false, last_switch_ms: now_ms }
        } else {
            s
        }
    } else {
        if elapsed_ms(s, now_ms) >= cfg.off_ms {
            CycleState { active: true, last_switch_ms: now_ms }
        } else {
            s
        }
    }
}

/// The duty-cycle model run over a whole sequence of observation instants,
/// first to last.
pub open spec fn cycle_run(cfg: CycleConfig, s: CycleState, times: Seq<u64>) -> CycleState
    decreases times.len(),
{
    if times.len() == 0 {
        s
    } else {
        cycle_run(cfg, cycle_step(cfg, s, times[0]), times.drop_first())
    }
}

/// Evaluating the cycle twice at the same instant commands the same state as
/// evaluating it once: a switch resets the reference instant, so the second
/// evaluation sees no elapsed time and cannot toggle back.
pub proof fn lemma_step_idempotent(cfg: CycleConfig, s: CycleState, now_ms: u64)
    requires
        cfg.wf(),
    ensures
        cycle_step(cfg, cycle_step(cfg, s, now_ms), now_ms) == cycle_step(cfg, s, now_ms),
{
}

/// An inactive device observed strictly before its off-phase has elapsed is
/// left exactly as it was.
pub proof fn lemma_inactive_holds(cfg: CycleConfig, s: CycleState, now_ms: u64)
    requires
        cfg.wf(),
        !s.active,
        now_ms < s.last_switch_ms + cfg.off_ms,
    ensures
        cycle_step(cfg, s, now_ms) == s,
{
}

/// The first observation at or after the off-phase of an inactive device has
/// elapsed switches it on and resets the reference instant.
pub proof fn lemma_inactive_switches(cfg: CycleConfig, s: CycleState, now_ms: u64)
    requires
        !s.active,
        now_ms >= s.last_switch_ms + cfg.off_ms,
    ensures
        cycle_step(cfg, s, now_ms) == (CycleState { active: true, last_switch_ms: now_ms }),
{
}

/// An active device observed strictly before its on-phase has elapsed is
/// left exactly as it was.
pub proof fn lemma_active_holds(cfg: CycleConfig, s: CycleState, now_ms: u64)
    requires
        cfg.wf(),
        s.active,
        now_ms < s.last_switch_ms + cfg.on_ms,
    ensures
        cycle_step(cfg, s, now_ms) == s,
{
}

/// The first observation at or after the on-phase of an active device has
/// elapsed switches it off and resets the reference instant.
pub proof fn lemma_active_switches(cfg: CycleConfig, s: CycleState, now_ms: u64)
    requires
        s.active,
        now_ms >= s.last_switch_ms + cfg.on_ms,
    ensures
        cycle_step(cfg, s, now_ms) == (CycleState { active: false, last_switch_ms: now_ms }),
{
}

/// However many observations an inactive device gets, as long as all of them
/// fall strictly before its off-phase has elapsed, it stays inactive with
/// its reference instant untouched.
pub proof fn lemma_inactive_phase(cfg: CycleConfig, s: CycleState, times: Seq<u64>)
    requires
        cfg.wf(),
        !s.active,
        forall|i: int| 0 <= i < times.len() ==> times[i] < s.last_switch_ms + cfg.off_ms,
    ensures
        cycle_run(cfg, s, times) == s,
    decreases times.len(),
{
    if times.len() > 0 {
        lemma_inactive_holds(cfg, s, times[0]);
        lemma_inactive_phase(cfg, s, times.drop_first());
    }
}

/// The counterpart for an active device: observations all strictly before
/// its on-phase has elapsed leave it exactly as it was.
pub proof fn lemma_active_phase(cfg: CycleConfig, s: CycleState, times: Seq<u64>)
    requires
        cfg.wf(),
        s.active,
        forall|i: int| 0 <= i < times.len() ==> times[i] < s.last_switch_ms + cfg.on_ms,
    ensures
        cycle_run(cfg, s, times) == s,
    decreases times.len(),
{
    if times.len() > 0 {
        lemma_active_holds(cfg, s, times[0]);
        lemma_active_phase(cfg, s, times.drop_first());
    }
}

/// A controller that toggles its owned line on a fixed duty cycle, measured
/// on the monotonic clock: the fogger is of this kind. The commanded level
/// is read back from the line itself, the single source of truth, so the
/// controller's own state is only the reference instant of the last switch.
pub struct DutyCycleController<L: OutputLine> {
    pub cfg: CycleConfig,
    pub line: L,
    pub last_switch_ms: u64,
    /// The construction instant: zero of the controller's monotonic timeline.
    pub origin: std::time::Instant,
}

impl<L: OutputLine> DutyCycleController<L> {
    /// The controller as the pure model sees it.
    pub open spec fn state(&self) -> CycleState {
        CycleState { active: self.line.active(), last_switch_ms: self.last_switch_ms }
    }

    /// Take ownership of the line and force it inactive: the device starts
    /// off, and its first on-switch comes only after a full off-phase has
    /// elapsed from construction, whose instant becomes the origin of the
    /// controller's monotonic timeline.
    pub fn new(cfg: CycleConfig, line: L) -> (r: Self)
        ensures
            r.cfg == cfg,
            r.state() == (CycleState { active: false, last_switch_ms: 0u64 }),
    {
        let mut line = line;
        line.set_inactive();
        DutyCycleController { cfg, line, last_switch_ms: 0, origin: clock::instant_now() }
    }

    /// Advance the duty cycle for an observation at `now_ms` of the
    /// controller's monotonic timeline: exactly one evaluation of the pure
    /// model, applied to the line.
    pub fn step(&mut self, now_ms: u64)
        ensures
            final(self).cfg == old(self).cfg,
            final(self).state() == cycle_step(old(self).cfg, old(self).state(), now_ms),
    {
        let elapsed: u64 = if self.last_switch_ms <= now_ms {
            now_ms - self.last_switch_ms
        } else {
            0
        };
        if self.line.is_active() {
            if elapsed >= self.cfg.on_ms {
                self.line.set_inactive();
                self.last_switch_ms = now_ms;
            }
        } else {
            if elapsed >= self.cfg.off_ms {
                self.line.set_active();
                self.last_switch_ms = now_ms;
            }
        }
    }

    /// Read the monotonic clock and advance the duty cycle for that instant.
    /// Returns the observed instant the decision was made for.
    pub fn update(&mut self) -> (now_ms: u64)
        ensures
            final(self).cfg == old(self).cfg,
            final(self).state() == cycle_step(old(self).cfg, old(self).state(), now_ms),
    {
        let now_ms = clock::millis_since(&self.origin);
        self.step(now_ms);
        now_ms
    }
}

} // verus!
