use cat_shield::chord::ChordMatcher;
use cat_shield::session::{SessionController, SessionDecision, TerminateReason};

fn fresh_session(auto_exit_secs: Option<u64>) -> SessionController {
    let matcher = ChordMatcher::parse("Cmd+Option+U").unwrap();
    SessionController::new(matcher, auto_exit_secs, 0)
}

#[test]
fn test_tick_continues_while_nothing_fires() {
    let mut s = fresh_session(None);
    let outcome = s.on_tick(0, 0);
    assert_eq!(outcome.decision, SessionDecision::Continue);
    assert!(!outcome.warning);
}

#[test]
fn test_hold_completion_terminates() {
    let mut s = fresh_session(None);
    s.on_pointer_down(0);
    assert_eq!(s.on_tick(2999, 2).decision, SessionDecision::Continue);
    let outcome = s.on_tick(3000, 3);
    assert_eq!(outcome.decision, SessionDecision::Terminate(TerminateReason::HoldCompleted));
}

#[test]
fn test_timer_expiry_terminates() {
    let mut s = fresh_session(Some(120));
    assert_eq!(s.on_tick(0, 119).decision, SessionDecision::Continue);
    let outcome = s.on_tick(0, 120);
    assert_eq!(outcome.decision, SessionDecision::Terminate(TerminateReason::TimerExpired));
}

#[test]
fn test_chord_match_terminates() {
    let mut s = fresh_session(None);
    assert_eq!(
        s.on_chord_matched(),
        SessionDecision::Terminate(TerminateReason::ChordMatched)
    );
}

#[test]
fn test_termination_is_idempotent() {
    // once a terminate decision is produced, every further call is a no-op
    let mut s = fresh_session(Some(120));
    assert_eq!(
        s.on_chord_matched(),
        SessionDecision::Terminate(TerminateReason::ChordMatched)
    );
    assert_eq!(s.on_chord_matched(), SessionDecision::Continue);
    let outcome = s.on_tick(0, 500);
    assert_eq!(outcome.decision, SessionDecision::Continue);
    assert!(!outcome.warning);
    // even with the countdown long expired and the control held forever
    s.on_pointer_down(0);
    let outcome = s.on_tick(10_000, 10_000);
    assert_eq!(outcome.decision, SessionDecision::Continue);
    assert!(!outcome.warning);
}

#[test]
fn test_hold_beats_timer_on_the_same_tick() {
    // both conditions stand on one tick: the hold is checked first
    let mut s = fresh_session(Some(60));
    s.on_pointer_down(0);
    let outcome = s.on_tick(3000, 60);
    assert_eq!(outcome.decision, SessionDecision::Terminate(TerminateReason::HoldCompleted));
}

#[test]
fn test_warning_is_a_side_effect_not_a_decision() {
    let mut s = fresh_session(Some(120));
    let outcome = s.on_tick(0, 60);
    assert_eq!(outcome.decision, SessionDecision::Continue);
    assert!(outcome.warning);
    // one-shot: the next tick at the threshold does not warn again
    let outcome = s.on_tick(16, 60);
    assert_eq!(outcome.decision, SessionDecision::Continue);
    assert!(!outcome.warning);
}

#[test]
fn test_session_read_outs() {
    let mut s = fresh_session(Some(120));
    assert_eq!(s.chord_display(), "Cmd+Option+U");
    assert_eq!(s.remaining_seconds(30), Some(90));
    assert!(!s.is_pointer_inside());
    assert_eq!(s.hold_progress_permille(0), 0);
    s.on_pointer_down(1000);
    assert!(s.is_pointer_inside());
    assert_eq!(s.hold_progress_permille(2500), 500);
    s.on_pointer_moved(false, 2500);
    assert_eq!(s.hold_progress_permille(2500), 0);
    let s2 = fresh_session(None);
    assert_eq!(s2.remaining_seconds(30), None);
}

#[test]
fn test_leaving_control_resets_session_progress() {
    let mut s = fresh_session(None);
    s.on_pointer_down(0);
    s.on_pointer_moved(false, 1500);
    s.on_pointer_moved(true, 1500);
    // 1.6s after the original press, only the re-entry counts
    assert_eq!(s.hold_progress_permille(1600), 33);
    assert_eq!(s.on_tick(4499, 4).decision, SessionDecision::Continue);
    assert_eq!(
        s.on_tick(4500, 4).decision,
        SessionDecision::Terminate(TerminateReason::HoldCompleted)
    );
}
