use cat_shield::chord::{ChordMatcher, KeyEvent};
use cat_shield::interceptor::{
    classify_event, intercept_event_mask, BlockPolicy, InputInterceptor, InterceptedEvent,
    TapAction, EVENT_TYPE_FLAGS_CHANGED, EVENT_TYPE_KEY_DOWN, EVENT_TYPE_KEY_UP,
    EVENT_TYPE_LEFT_MOUSE_DOWN, EVENT_TYPE_MOUSE_MOVED, EVENT_TYPE_SCROLL_WHEEL,
    EVENT_TYPE_TAP_DISABLED_BY_TIMEOUT, EVENT_TYPE_TAP_DISABLED_BY_USER_INPUT,
};

fn chord_event() -> KeyEvent {
    KeyEvent { keycode: 32, cmd: true, option: true, shift: false, ctrl: false }
}

fn other_key_event() -> KeyEvent {
    KeyEvent { keycode: 0, cmd: false, option: false, shift: false, ctrl: false }
}

fn shield_interceptor(block_pointer: bool) -> InputInterceptor {
    let matcher = ChordMatcher::parse("Cmd+Option+U").unwrap();
    InputInterceptor::new(
        BlockPolicy { block_keyboard: true, block_pointer },
        matcher,
    )
}

#[test]
fn test_classify_event_categories() {
    let k = other_key_event();
    assert_eq!(
        classify_event(EVENT_TYPE_TAP_DISABLED_BY_TIMEOUT, k),
        InterceptedEvent::TapRevoked
    );
    assert_eq!(
        classify_event(EVENT_TYPE_TAP_DISABLED_BY_USER_INPUT, k),
        InterceptedEvent::TapRevoked
    );
    assert_eq!(classify_event(EVENT_TYPE_KEY_DOWN, k), InterceptedEvent::KeyDown(k));
    assert_eq!(classify_event(EVENT_TYPE_KEY_UP, k), InterceptedEvent::OtherKeyboard);
    assert_eq!(classify_event(EVENT_TYPE_FLAGS_CHANGED, k), InterceptedEvent::OtherKeyboard);
    assert_eq!(classify_event(EVENT_TYPE_LEFT_MOUSE_DOWN, k), InterceptedEvent::Pointer);
    assert_eq!(classify_event(EVENT_TYPE_MOUSE_MOVED, k), InterceptedEvent::Pointer);
    assert_eq!(classify_event(EVENT_TYPE_SCROLL_WHEEL, k), InterceptedEvent::Pointer);
    assert_eq!(classify_event(0, k), InterceptedEvent::Other);
}

#[test]
fn test_revocation_re_enables_and_passes() {
    let mut it = shield_interceptor(false);
    it.enabled = false;
    let action = it.handle_event(&InterceptedEvent::TapRevoked);
    assert_eq!(action, TapAction::ReEnableAndPass);
    assert!(it.enabled);
}

#[test]
fn test_chord_key_press_signals_and_passes() {
    let mut it = shield_interceptor(false);
    let action = it.handle_event(&InterceptedEvent::KeyDown(chord_event()));
    assert_eq!(action, TapAction::SignalChordAndPass);
}

#[test]
fn test_other_key_press_is_suppressed() {
    let mut it = shield_interceptor(false);
    let action = it.handle_event(&InterceptedEvent::KeyDown(other_key_event()));
    assert_eq!(action, TapAction::Suppress);
    let action = it.handle_event(&InterceptedEvent::OtherKeyboard);
    assert_eq!(action, TapAction::Suppress);
}

#[test]
fn test_near_chord_key_press_is_suppressed() {
    // the chord's key with an extra modifier held is not the chord
    let mut it = shield_interceptor(false);
    let mut ev = chord_event();
    ev.shift = true;
    let action = it.handle_event(&InterceptedEvent::KeyDown(ev));
    assert_eq!(action, TapAction::Suppress);
}

#[test]
fn test_pointer_events_follow_policy() {
    let mut it = shield_interceptor(false);
    assert_eq!(it.handle_event(&InterceptedEvent::Pointer), TapAction::PassThrough);
    let mut blocking = shield_interceptor(true);
    assert_eq!(blocking.handle_event(&InterceptedEvent::Pointer), TapAction::Suppress);
}

#[test]
fn test_unrelated_events_pass_through() {
    let mut it = shield_interceptor(true);
    assert_eq!(it.handle_event(&InterceptedEvent::Other), TapAction::PassThrough);
}

#[test]
fn test_intercept_event_mask_bits() {
    let mask = intercept_event_mask();
    let expected: u64 = (1 << 10) | (1 << 11) | (1 << 12) | (1 << 1) | (1 << 2) | (1 << 3)
        | (1 << 4) | (1 << 5) | (1 << 6) | (1 << 7) | (1 << 22) | (1 << 25) | (1 << 26)
        | (1 << 27);
    assert_eq!(mask, expected);
    assert_eq!(mask, 239_082_750);
}
