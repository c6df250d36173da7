use kronos::timer::{Timer, TimerState};

#[test]
fn new_timer_is_idle_with_minute_target() {
    let t = Timer::new(25);
    assert_eq!(t.state, TimerState::Idle);
    assert_eq!(t.started_at, None);
    assert_eq!(t.accumulated_time, 0);
    assert_eq!(t.target_duration, 25 * 60);
    assert_eq!(t.get_elapsed_at(1000), 0);
}

#[test]
fn toggle_cycles_idle_running_paused() {
    let mut t = Timer::new(1);
    t.toggle_at(100);
    assert_eq!(t.state, TimerState::Running);
    assert_eq!(t.started_at, Some(100));
    t.toggle_at(160);
    assert_eq!(t.state, TimerState::Paused);
    assert_eq!(t.started_at, None);
    assert_eq!(t.accumulated_time, 60);
    t.toggle_at(200);
    assert_eq!(t.state, TimerState::Running);
    assert_eq!(t.started_at, Some(200));
}

#[test]
fn elapsed_grows_exactly_with_the_clock() {
    // Elapsed monotonicity: two samples of a running timer differ by
    // exactly the wall-clock span between them.
    let mut t = Timer::new(25);
    t.toggle_at(1000);
    let e1 = t.get_elapsed_at(1500);
    let e2 = t.get_elapsed_at(2300);
    assert_eq!(e2 - e1, 800);
    assert_eq!(e1, 500);
}

#[test]
fn pause_resume_preserves_elapsed() {
    // Pausing and immediately resuming leaves elapsed time unchanged.
    let mut t = Timer::new(25);
    t.toggle_at(1000);
    let before = t.get_elapsed_at(1250);
    t.toggle_at(1250);
    t.toggle_at(1250);
    assert_eq!(t.get_elapsed_at(1250), before);
    assert_eq!(before, 250);
    // and the paused interval does not count
    t.toggle_at(1300);
    let paused = t.get_elapsed_at(1300);
    t.toggle_at(1400);
    assert_eq!(t.get_elapsed_at(1500), paused + 100);
}

#[test]
fn reset_is_idempotent() {
    let mut t = Timer::new(25);
    t.toggle_at(100);
    t.toggle_at(400);
    assert_eq!(t.accumulated_time, 300);
    t.reset();
    assert_eq!(t.state, TimerState::Idle);
    assert_eq!(t.started_at, None);
    assert_eq!(t.accumulated_time, 0);
    assert_eq!(t.target_duration, 25 * 60);
    let once = t;
    t.reset();
    assert_eq!(t, once);
}

#[test]
fn progress_is_clamped_to_permille_range() {
    let mut t = Timer::new(1);
    assert_eq!(t.get_progress_permille_at(0), 0);
    t.toggle_at(0);
    assert_eq!(t.get_progress_permille_at(30), 500);
    assert_eq!(t.get_progress_permille_at(60), 1000);
    // far past the target it stays clamped at 1000
    assert_eq!(t.get_progress_permille_at(100_000), 1000);
}

#[test]
fn progress_is_zero_for_non_positive_target() {
    let mut zero = Timer::new(0);
    zero.toggle_at(0);
    assert_eq!(zero.get_progress_permille_at(500), 0);
    let negative = Timer {
        state: TimerState::Idle,
        started_at: None,
        accumulated_time: 100,
        target_duration: -60,
    };
    assert_eq!(negative.get_progress_permille_at(500), 0);
}

#[test]
fn remaining_is_floored_at_zero() {
    let mut t = Timer::new(1);
    t.toggle_at(0);
    assert_eq!(t.get_remaining_at(45), 15);
    assert_eq!(t.get_remaining_at(60), 0);
    assert_eq!(t.get_remaining_at(1000), 0);
}

#[test]
fn completion_is_elapsed_reaching_target() {
    let mut t = Timer::new(1);
    assert!(!t.is_complete_at(0));
    t.toggle_at(0);
    assert!(!t.is_complete_at(59));
    assert!(t.is_complete_at(60));
    assert!(t.is_complete_at(61));
}

#[test]
fn wall_clock_toggle_keeps_invariant() {
    let mut t = Timer::new(25);
    t.toggle();
    assert_eq!(t.state, TimerState::Running);
    assert!(t.started_at.is_some());
    let e = t.get_elapsed();
    assert!(e >= 0);
    t.toggle();
    assert_eq!(t.state, TimerState::Paused);
    assert_eq!(t.started_at, None);
    assert!(!t.is_complete() || t.get_remaining() == 0);
    let _ = t.get_progress_permille();
}
