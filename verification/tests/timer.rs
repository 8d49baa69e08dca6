use platformer_core::timer_helpers::{Timer, TimerHelper, TimerMode};

#[test]
fn once_timer_saturates_at_duration() {
    let mut t = Timer::new(100, TimerMode::Once);
    t.tick(60);
    assert_eq!(t.elapsed_ms, 60);
    assert!(!t.finished());
    assert!(!t.is_stopped());
    t.tick(60);
    assert_eq!(t.elapsed_ms, 100);
    assert!(t.finished());
    assert!(t.is_stopped());
    t.tick(1000);
    assert_eq!(t.elapsed_ms, 100);
}

#[test]
fn repeating_timer_wraps_with_remainder() {
    let mut t = Timer::new(100, TimerMode::Repeating);
    t.tick(250);
    assert_eq!(t.elapsed_ms, 50);
    assert!(t.finished());
    t.tick(30);
    assert_eq!(t.elapsed_ms, 80);
    assert!(!t.finished());
    t.tick(20);
    assert_eq!(t.elapsed_ms, 0);
    assert!(t.finished());
}

#[test]
fn zero_duration_repeating_timer_is_always_finishing() {
    let mut t = Timer::new(0, TimerMode::Repeating);
    t.tick(7);
    assert_eq!(t.elapsed_ms, 0);
    assert!(t.finished());
}

#[test]
fn ticking_a_paused_timer_is_a_no_op() {
    let mut t = Timer::new(100, TimerMode::Once);
    t.tick(40);
    t.pause();
    t.tick(500);
    assert_eq!(t.elapsed_ms, 40);
    assert!(!t.finished());
    assert!(t.is_stopped());
    t.unpause();
    assert_eq!(t.elapsed_ms, 40);
    assert!(!t.is_stopped());
}

#[test]
fn restart_rewinds_and_unpauses() {
    let mut t = Timer::new(100, TimerMode::Once);
    t.tick(100);
    t.pause();
    assert!(t.is_stopped());
    t.restart();
    assert_eq!(t.elapsed_ms, 0);
    assert!(!t.finished());
    assert!(!t.paused());
    assert!(!t.is_stopped());
}

#[test]
fn reset_keeps_the_pause_state() {
    let mut t = Timer::new(100, TimerMode::Once);
    t.tick(100);
    t.pause();
    t.reset();
    assert_eq!(t.elapsed_ms, 0);
    assert!(!t.finished());
    assert!(t.paused());
}
