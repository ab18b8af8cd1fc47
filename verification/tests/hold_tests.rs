use cat_shield::hold::{
    calculate_hold_progress, is_hold_complete, HoldGesture, HoldPhase, HOLD_DURATION_MILLIS,
    PROGRESS_SCALE,
};

#[test]
fn test_calculate_hold_progress_zero() {
    assert_eq!(calculate_hold_progress(0, 3000), 0);
}

#[test]
fn test_calculate_hold_progress_partial() {
    // half the duration held: progress stands at half the scale
    assert_eq!(calculate_hold_progress(1500, 3000), 500);
}

#[test]
fn test_calculate_hold_progress_complete() {
    assert_eq!(calculate_hold_progress(3000, 3000), 1000);
}

#[test]
fn test_calculate_hold_progress_exceeds() {
    // Should clamp to full scale when elapsed exceeds duration
    assert_eq!(calculate_hold_progress(5000, 3000), 1000);
}

#[test]
fn test_is_hold_complete_false() {
    assert!(!is_hold_complete(2000, 3000));
    assert!(!is_hold_complete(2999, 3000));
}

#[test]
fn test_is_hold_complete_exact() {
    assert!(is_hold_complete(3000, 3000));
}

#[test]
fn test_is_hold_complete_exceeds() {
    assert!(is_hold_complete(5000, 3000));
}

#[test]
fn test_hold_progress_monotonic_samples() {
    let mut last = 0;
    for elapsed in [0u64, 1, 500, 1499, 1500, 2999, 3000, 3001, 10000] {
        let p = calculate_hold_progress(elapsed, HOLD_DURATION_MILLIS);
        assert!(p >= last);
        assert!(p <= PROGRESS_SCALE);
        last = p;
    }
}

#[test]
fn test_gesture_press_and_complete() {
    let mut g = HoldGesture::new();
    assert_eq!(g.phase, HoldPhase::Idle);
    g.pointer_down(0);
    assert_eq!(g.phase, HoldPhase::Pressed { start_millis: 0 });
    assert!(g.is_pointer_inside());
    assert!(!g.tick(2999));
    assert_eq!(g.progress_permille(2999), 999);
    assert!(g.tick(3000));
    assert_eq!(g.phase, HoldPhase::Completed);
    assert_eq!(g.progress_permille(3000), 1000);
    // completion keeps being reported until the gesture is consumed
    assert!(g.tick(3100));
    g.reset();
    assert_eq!(g.phase, HoldPhase::Idle);
    assert!(!g.tick(3200));
}

#[test]
fn test_gesture_release_discards_progress() {
    let mut g = HoldGesture::new();
    g.pointer_down(0);
    assert!(!g.tick(1500));
    g.pointer_up();
    assert_eq!(g.phase, HoldPhase::Idle);
    assert_eq!(g.progress_permille(1500), 0);
    // even a tick past the original deadline completes nothing
    assert!(!g.tick(5000));
}

#[test]
fn test_gesture_reentry_restarts_hold() {
    // down, 1.5s passes, pointer leaves, re-enters: progress counts from the
    // re-entry, not from the original press
    let mut g = HoldGesture::new();
    g.pointer_down(0);
    assert!(!g.tick(1500));
    g.pointer_moved(false, 1500);
    assert_eq!(g.phase, HoldPhase::Idle);
    g.pointer_moved(true, 1500);
    assert_eq!(g.phase, HoldPhase::Pressed { start_millis: 1500 });
    // 1.6s after the original press: only 0.1s of the new hold has passed
    assert_eq!(g.progress_permille(1600), 100 * 1000 / 3000);
    assert!(!g.tick(1600));
    // completion needs the full duration from the re-entry
    assert!(!g.tick(4499));
    assert!(g.tick(4500));
}

#[test]
fn test_gesture_drag_inside_keeps_start() {
    let mut g = HoldGesture::new();
    g.pointer_down(1000);
    // a drag that stays inside does not restart the hold
    g.pointer_moved(true, 2000);
    assert_eq!(g.phase, HoldPhase::Pressed { start_millis: 1000 });
    assert!(g.tick(4000));
}

#[test]
fn test_gesture_clock_going_backwards_is_safe() {
    let mut g = HoldGesture::new();
    g.pointer_down(5000);
    // a tick carrying an earlier instant reports zero progress, no underflow
    assert_eq!(g.progress_permille(4000), 0);
    assert!(!g.tick(4000));
}
