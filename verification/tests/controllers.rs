use terrarium::fog_cycle;
use terrarium::lights_window;
use terrarium::mist_window;
use terrarium::AcquireError;
use terrarium::CycleConfig;
use terrarium::DutyCycleController;
use terrarium::Level;
use terrarium::MemLine;
use terrarium::OutputLine;
use terrarium::System;
use terrarium::TimeOfDay;
use terrarium::WindowConfig;
use terrarium::WindowController;
use terrarium::FOG_ACTIVE_LEVEL;
use terrarium::FOG_LINE_ID;
use terrarium::FOG_OFF_MS;
use terrarium::FOG_ON_MS;
use terrarium::LIGHTS_ACTIVE_LEVEL;
use terrarium::LIGHTS_LINE_ID;
use terrarium::MIST_ACTIVE_LEVEL;
use terrarium::MIST_LINE_ID;
use terrarium::SECS_PER_DAY;

fn lights_line() -> MemLine {
    MemLine::acquire(LIGHTS_LINE_ID, LIGHTS_ACTIVE_LEVEL, true).unwrap()
}

fn mist_line() -> MemLine {
    MemLine::acquire(MIST_LINE_ID, MIST_ACTIVE_LEVEL, true).unwrap()
}

fn fog_line() -> MemLine {
    MemLine::acquire(FOG_LINE_ID, FOG_ACTIVE_LEVEL, true).unwrap()
}

fn at(hour: u8, minute: u8, second: u8) -> TimeOfDay {
    TimeOfDay::from_hms(hour, minute, second)
}

#[test]
fn from_hms_exact_values() {
    assert_eq!(at(0, 0, 0).secs, 0);
    assert_eq!(at(7, 0, 0).secs, 25200);
    assert_eq!(at(19, 0, 0).secs, 68400);
    assert_eq!(at(19, 1, 0).secs, 68460);
    assert_eq!(at(21, 0, 0).secs, 75600);
    assert_eq!(at(23, 59, 59).secs, 86399);
    assert!(at(23, 59, 59).secs < SECS_PER_DAY);
}

#[test]
fn level_flip_is_opposite() {
    assert_eq!(Level::High.flip(), Level::Low);
    assert_eq!(Level::Low.flip(), Level::High);
}

#[test]
fn configured_values_match_the_installation() {
    let lights = lights_window();
    assert_eq!(lights, WindowConfig { on_secs: 7 * 3600, off_secs: 21 * 3600 });
    let mist = mist_window();
    assert_eq!(mist, WindowConfig { on_secs: 19 * 3600, off_secs: 19 * 3600 + 60 });
    let fog = fog_cycle();
    assert_eq!(fog, CycleConfig { on_ms: 10 * 60 * 1000, off_ms: 30 * 60 * 1000 });
    assert_eq!(FOG_ON_MS, 600_000);
    assert_eq!(FOG_OFF_MS, 1_800_000);
}

#[test]
fn acquired_line_starts_de_energized() {
    let l = lights_line();
    assert_eq!(l.line_id, LIGHTS_LINE_ID);
    assert!(!l.is_active());
    assert_eq!(l.level, Level::Low);

    let m = mist_line();
    assert!(!m.is_active());
    assert_eq!(m.level, Level::High);
}

#[test]
fn line_drive_respects_wiring() {
    let mut l = lights_line();
    l.set_active();
    assert!(l.is_active());
    assert_eq!(l.level, Level::High);
    l.set_inactive();
    assert!(!l.is_active());
    assert_eq!(l.level, Level::Low);

    let mut m = mist_line();
    m.set_active();
    assert!(m.is_active());
    assert_eq!(m.level, Level::Low);
    m.set_inactive();
    assert!(!m.is_active());
    assert_eq!(m.level, Level::High);
}

#[test]
fn acquire_unavailable_line_fails() {
    let r = MemLine::acquire(FOG_LINE_ID, FOG_ACTIVE_LEVEL, false);
    assert_eq!(r, Err(AcquireError::Unavailable));
}

#[test]
fn lights_active_strictly_inside_window() {
    let mut c = WindowController::new(lights_window(), lights_line());
    c.apply(at(7, 0, 1));
    assert!(c.line.is_active());
    c.apply(at(12, 0, 0));
    assert!(c.line.is_active());
    c.apply(at(20, 59, 59));
    assert!(c.line.is_active());
}

#[test]
fn lights_inactive_outside_window() {
    let mut c = WindowController::new(lights_window(), lights_line());
    c.apply(at(0, 0, 0));
    assert!(!c.line.is_active());
    c.apply(at(6, 59, 59));
    assert!(!c.line.is_active());
    c.apply(at(21, 0, 0));
    assert!(!c.line.is_active());
    c.apply(at(21, 0, 1));
    assert!(!c.line.is_active());
    c.apply(at(23, 59, 59));
    assert!(!c.line.is_active());
}

#[test]
fn lights_boundary_instants_are_off() {
    let mut c = WindowController::new(lights_window(), lights_line());
    c.apply(at(7, 0, 0));
    assert!(!c.line.is_active());
    assert_eq!(c.line.level, Level::Low);
    c.apply(at(7, 0, 1));
    assert!(c.line.is_active());
    assert_eq!(c.line.level, Level::High);
}

#[test]
fn mist_commands_low_inside_its_minute() {
    let mut c = WindowController::new(mist_window(), mist_line());
    c.apply(at(19, 0, 30));
    assert!(c.line.is_active());
    assert_eq!(c.line.level, Level::Low);
    c.apply(at(19, 0, 1));
    assert!(c.line.is_active());
    assert_eq!(c.line.level, Level::Low);
}

#[test]
fn mist_commands_high_outside_its_minute() {
    let mut c = WindowController::new(mist_window(), mist_line());
    c.apply(at(19, 0, 0));
    assert!(!c.line.is_active());
    assert_eq!(c.line.level, Level::High);
    c.apply(at(19, 1, 0));
    assert!(!c.line.is_active());
    assert_eq!(c.line.level, Level::High);
    c.apply(at(18, 59, 59));
    assert_eq!(c.line.level, Level::High);
    c.apply(at(19, 1, 1));
    assert_eq!(c.line.level, Level::High);
    c.apply(at(3, 0, 0));
    assert_eq!(c.line.level, Level::High);
}

#[test]
fn window_update_twice_commands_same_level() {
    let mut c = WindowController::new(lights_window(), lights_line());
    c.apply(at(12, 0, 0));
    let first = c.line.level;
    c.apply(at(12, 0, 0));
    assert_eq!(c.line.level, first);
    c.apply(at(7, 0, 0));
    let first = c.line.level;
    c.apply(at(7, 0, 0));
    assert_eq!(c.line.level, first);
}

#[test]
fn fog_starts_inactive_with_line_forced_off() {
    let c = DutyCycleController::new(fog_cycle(), fog_line());
    assert!(!c.line.is_active());
    assert_eq!(c.line.level, Level::High);
    assert_eq!(c.last_switch_ms, 0);
}

#[test]
fn fog_end_to_end_cycle() {
    let mut c = DutyCycleController::new(fog_cycle(), fog_line());

    // 9 minutes after construction: still in the initial off-phase.
    c.step(9 * 60 * 1000);
    assert!(!c.line.is_active());
    assert_eq!(c.last_switch_ms, 0);

    // 10:01 after construction: still off — the cycle starts inactive and
    // waits out a full 30-minute off-phase first.
    c.step(10 * 60 * 1000 + 1000);
    assert!(!c.line.is_active());
    assert_eq!(c.last_switch_ms, 0);

    // 30:01 after construction: the off-phase has elapsed, the fogger
    // switches on and the reference instant resets.
    c.step(30 * 60 * 1000 + 1000);
    assert!(c.line.is_active());
    assert_eq!(c.line.level, Level::Low);
    assert_eq!(c.last_switch_ms, 30 * 60 * 1000 + 1000);

    // 9:59 later (40:00 cumulative): still inside the 10-minute on-phase.
    c.step(40 * 60 * 1000);
    assert!(c.line.is_active());
    assert_eq!(c.last_switch_ms, 30 * 60 * 1000 + 1000);

    // Past 10:00 more: the on-phase has elapsed, the fogger switches off.
    c.step(40 * 60 * 1000 + 1500);
    assert!(!c.line.is_active());
    assert_eq!(c.line.level, Level::High);
    assert_eq!(c.last_switch_ms, 40 * 60 * 1000 + 1500);
}

#[test]
fn fog_switches_exactly_at_threshold() {
    let mut c = DutyCycleController::new(fog_cycle(), fog_line());
    c.step(FOG_OFF_MS - 1);
    assert!(!c.line.is_active());
    c.step(FOG_OFF_MS);
    assert!(c.line.is_active());
    c.step(FOG_OFF_MS + FOG_ON_MS - 1);
    assert!(c.line.is_active());
    c.step(FOG_OFF_MS + FOG_ON_MS);
    assert!(!c.line.is_active());
}

#[test]
fn fog_update_twice_at_same_instant_does_not_double_toggle() {
    let mut c = DutyCycleController::new(fog_cycle(), fog_line());
    c.step(FOG_OFF_MS);
    assert!(c.line.is_active());
    assert_eq!(c.last_switch_ms, FOG_OFF_MS);
    c.step(FOG_OFF_MS);
    assert!(c.line.is_active());
    assert_eq!(c.last_switch_ms, FOG_OFF_MS);
}

#[test]
fn system_construction_fails_on_any_unavailable_line() {
    let fog_cfg = fog_cycle();
    let mist_cfg = mist_window();
    let lights_cfg = lights_window();

    let r = System::new(
        MemLine::acquire(FOG_LINE_ID, FOG_ACTIVE_LEVEL, false),
        MemLine::acquire(MIST_LINE_ID, MIST_ACTIVE_LEVEL, true),
        MemLine::acquire(LIGHTS_LINE_ID, LIGHTS_ACTIVE_LEVEL, true),
        fog_cfg,
        mist_cfg,
        lights_cfg,
    );
    assert!(matches!(r, Err(AcquireError::Unavailable)));

    let r = System::new(
        MemLine::acquire(FOG_LINE_ID, FOG_ACTIVE_LEVEL, true),
        MemLine::acquire(MIST_LINE_ID, MIST_ACTIVE_LEVEL, false),
        MemLine::acquire(LIGHTS_LINE_ID, LIGHTS_ACTIVE_LEVEL, true),
        fog_cfg,
        mist_cfg,
        lights_cfg,
    );
    assert!(matches!(r, Err(AcquireError::Unavailable)));

    let r = System::new(
        MemLine::acquire(FOG_LINE_ID, FOG_ACTIVE_LEVEL, true),
        MemLine::acquire(MIST_LINE_ID, MIST_ACTIVE_LEVEL, true),
        MemLine::acquire(LIGHTS_LINE_ID, LIGHTS_ACTIVE_LEVEL, false),
        fog_cfg,
        mist_cfg,
        lights_cfg,
    );
    assert!(matches!(r, Err(AcquireError::Unavailable)));
}

#[test]
fn system_construction_succeeds_with_all_lines() {
    let s = System::new(
        MemLine::acquire(FOG_LINE_ID, FOG_ACTIVE_LEVEL, true),
        MemLine::acquire(MIST_LINE_ID, MIST_ACTIVE_LEVEL, true),
        MemLine::acquire(LIGHTS_LINE_ID, LIGHTS_ACTIVE_LEVEL, true),
        fog_cycle(),
        mist_window(),
        lights_window(),
    )
    .unwrap();
    assert!(!s.fog.line.is_active());
    assert_eq!(s.fog.last_switch_ms, 0);
    assert!(!s.mist.line.is_active());
    assert!(!s.lights.line.is_active());
}

#[test]
fn system_tick_runs_each_controller_once() {
    let mut s = System::new(
        MemLine::acquire(FOG_LINE_ID, FOG_ACTIVE_LEVEL, true),
        MemLine::acquire(MIST_LINE_ID, MIST_ACTIVE_LEVEL, true),
        MemLine::acquire(LIGHTS_LINE_ID, LIGHTS_ACTIVE_LEVEL, true),
        fog_cycle(),
        mist_window(),
        lights_window(),
    )
    .unwrap();
    let report = s.tick();

    // Far less than the 30-minute off-phase can have elapsed since
    // construction, so the fogger must still be off.
    assert!(report.fog_now_ms < FOG_OFF_MS);
    assert!(!s.fog.line.is_active());

    // When the local wall clock was readable, each window line now reflects
    // exactly whether that time lay strictly inside its window.
    if let Some(t) = report.mist_time {
        assert!(t.secs < SECS_PER_DAY);
        let expected = 19 * 3600 < t.secs && t.secs < 19 * 3600 + 60;
        assert_eq!(s.mist.line.is_active(), expected);
    }
    if let Some(t) = report.lights_time {
        assert!(t.secs < SECS_PER_DAY);
        let expected = 7 * 3600 < t.secs && t.secs < 21 * 3600;
        assert_eq!(s.lights.line.is_active(), expected);
    }
}
