use cat_shield::chord::{ChordMatcher, ChordParseError, KeyEvent};

fn event(keycode: i64, cmd: bool, option: bool, shift: bool, ctrl: bool) -> KeyEvent {
    KeyEvent { keycode, cmd, option, shift, ctrl }
}

#[test]
fn test_parse_cmd_option_u() {
    let m = ChordMatcher::parse("Cmd+Option+U").unwrap();
    assert!(m.chord.cmd);
    assert!(m.chord.option);
    assert!(!m.chord.shift);
    assert!(!m.chord.ctrl);
    assert_eq!(m.chord.keycode, 32); // the platform code for U
    assert_eq!(m.display_name(), "Cmd+Option+U");
}

#[test]
fn test_parse_is_case_insensitive() {
    let m = ChordMatcher::parse("cmd+option+u").unwrap();
    assert!(m.chord.cmd && m.chord.option);
    assert_eq!(m.chord.keycode, 32);
    assert_eq!(m.display_name(), "Cmd+Option+U");
}

#[test]
fn test_parse_modifier_synonyms() {
    let m = ChordMatcher::parse("Command+Alt+Control+U").unwrap();
    assert!(m.chord.cmd && m.chord.option && m.chord.ctrl);
    assert!(!m.chord.shift);
    assert_eq!(m.display_name(), "Cmd+Option+Ctrl+U");
}

#[test]
fn test_parse_named_keys() {
    assert_eq!(ChordMatcher::parse("Ctrl+F5").unwrap().chord.keycode, 96);
    assert_eq!(ChordMatcher::parse("Cmd+Space").unwrap().chord.keycode, 49);
    assert_eq!(ChordMatcher::parse("Cmd+Escape").unwrap().chord.keycode, 53);
    assert_eq!(ChordMatcher::parse("Shift+7").unwrap().chord.keycode, 26);
}

#[test]
fn test_parse_bare_key_is_error() {
    assert_eq!(ChordMatcher::parse("U").unwrap_err(), ChordParseError::NoModifiers);
}

#[test]
fn test_parse_two_keys_is_error() {
    assert_eq!(ChordMatcher::parse("Cmd+A+B").unwrap_err(), ChordParseError::MultipleKeys);
}

#[test]
fn test_parse_empty_is_error() {
    assert_eq!(ChordMatcher::parse("").unwrap_err(), ChordParseError::EmptyInput);
}

#[test]
fn test_parse_no_key_is_error() {
    assert_eq!(ChordMatcher::parse("Cmd+Shift").unwrap_err(), ChordParseError::NoKey);
}

#[test]
fn test_parse_unknown_key_is_error() {
    assert_eq!(ChordMatcher::parse("Cmd+Foo").unwrap_err(), ChordParseError::UnknownKey);
    assert_eq!(ChordMatcher::parse("Cmd+").unwrap_err(), ChordParseError::UnknownKey);
}

#[test]
fn test_match_exact() {
    let m = ChordMatcher::parse("Cmd+Option+U").unwrap();
    assert!(m.matches(&event(32, true, true, false, false)));
}

#[test]
fn test_match_rejects_extra_modifier() {
    // a chord requiring cmd+option must not match cmd+option+shift
    let m = ChordMatcher::parse("Cmd+Option+U").unwrap();
    assert!(!m.matches(&event(32, true, true, true, false)));
    assert!(!m.matches(&event(32, true, true, false, true)));
}

#[test]
fn test_match_rejects_missing_modifier() {
    let m = ChordMatcher::parse("Cmd+Option+U").unwrap();
    assert!(!m.matches(&event(32, true, false, false, false)));
    assert!(!m.matches(&event(32, false, true, false, false)));
    assert!(!m.matches(&event(32, false, false, false, false)));
}

#[test]
fn test_match_rejects_other_key() {
    let m = ChordMatcher::parse("Cmd+Option+U").unwrap();
    assert!(!m.matches(&event(0, true, true, false, false)));
}

#[test]
fn test_chord_error_messages_distinct() {
    let messages = [
        ChordParseError::EmptyInput.message(),
        ChordParseError::NoKey.message(),
        ChordParseError::MultipleKeys.message(),
        ChordParseError::UnknownKey.message(),
        ChordParseError::NoModifiers.message(),
    ];
    for (i, a) in messages.iter().enumerate() {
        assert!(!a.is_empty());
        for (j, b) in messages.iter().enumerate() {
            if i != j {
                assert_ne!(a, b);
            }
        }
    }
}
