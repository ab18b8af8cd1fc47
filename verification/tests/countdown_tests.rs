use cat_shield::countdown::{CountdownTimer, WARNING_SECONDS};

#[test]
fn test_unarmed_countdown_never_expires() {
    let mut t = CountdownTimer::new();
    assert!(!t.is_armed());
    assert_eq!(t.get_remaining_seconds(0), u64::MAX);
    assert_eq!(t.get_remaining_seconds(1_000_000), u64::MAX);
    assert!(!t.is_expired(1_000_000));
    assert!(!t.crossed_warning(1_000_000));
}

#[test]
fn test_init_auto_exit_timer_and_remaining() {
    let mut t = CountdownTimer::new();
    t.init_auto_exit_timer(300, 1000);
    assert!(t.is_armed());
    assert_eq!(t.get_remaining_seconds(1000), 300);
    assert_eq!(t.get_remaining_seconds(1100), 200);
    assert_eq!(t.get_remaining_seconds(1300), 0);
    assert_eq!(t.get_remaining_seconds(9999), 0);
}

#[test]
fn test_remaining_saturates_on_clock_skew() {
    let mut t = CountdownTimer::new();
    t.init_auto_exit_timer(300, 1000);
    // wall clock jumped backwards: nothing elapsed yet, nothing panics
    assert_eq!(t.get_remaining_seconds(500), 300);
}

#[test]
fn test_is_expired_exactly_at_zero_remaining() {
    let mut t = CountdownTimer::new();
    t.init_auto_exit_timer(120, 0);
    assert!(!t.is_expired(119));
    assert!(t.is_expired(120));
    assert!(t.is_expired(121));
}

#[test]
fn test_crossed_warning_fires_once() {
    let mut t = CountdownTimer::new();
    t.init_auto_exit_timer(120, 0);
    // remaining 61: above the threshold, nothing fires
    assert!(!t.crossed_warning(59));
    // remaining 60: the first crossing fires
    assert_eq!(t.get_remaining_seconds(60), WARNING_SECONDS);
    assert!(t.crossed_warning(60));
    // recomputed at exactly 60s again due to tick jitter: no second firing
    assert!(!t.crossed_warning(60));
    assert!(!t.crossed_warning(61));
    assert!(!t.crossed_warning(119));
    assert!(!t.crossed_warning(120));
}

#[test]
fn test_crossed_warning_fires_on_late_first_check() {
    // a countdown first checked deep below the threshold still warns once
    let mut t = CountdownTimer::new();
    t.init_auto_exit_timer(120, 0);
    assert!(t.crossed_warning(115));
    assert!(!t.crossed_warning(116));
}

#[test]
fn test_short_countdown_warns_immediately() {
    let mut t = CountdownTimer::new();
    t.init_auto_exit_timer(60, 0);
    assert!(t.crossed_warning(0));
    assert!(!t.crossed_warning(1));
}
