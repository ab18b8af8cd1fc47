use cat_shield::duration::{format_duration, parse_duration, DurationError};

#[test]
fn test_parse_duration_minutes() {
    assert_eq!(parse_duration("30m").unwrap(), 30 * 60);
    assert_eq!(parse_duration("1m").unwrap(), 60);
    assert_eq!(parse_duration("90m").unwrap(), 90 * 60);
}

#[test]
fn test_parse_duration_hours() {
    assert_eq!(parse_duration("1h").unwrap(), 3600);
    assert_eq!(parse_duration("2h").unwrap(), 2 * 3600);
    assert_eq!(parse_duration("24h").unwrap(), 24 * 3600);
}

#[test]
fn test_parse_duration_combined() {
    assert_eq!(parse_duration("1h30m").unwrap(), 3600 + 30 * 60);
    assert_eq!(parse_duration("2h45m").unwrap(), 2 * 3600 + 45 * 60);
}

#[test]
fn test_parse_duration_with_spaces() {
    assert_eq!(parse_duration(" 30m ").unwrap(), 30 * 60);
    assert_eq!(parse_duration("1h 30m").unwrap(), 3600 + 30 * 60);
}

#[test]
fn test_parse_duration_bare_number_as_minutes() {
    // A bare number without unit is treated as minutes
    assert_eq!(parse_duration("30").unwrap(), 30 * 60);
    assert_eq!(parse_duration("60").unwrap(), 60 * 60);
}

#[test]
fn test_parse_duration_seconds() {
    assert_eq!(parse_duration("90s").unwrap(), 90);
    assert_eq!(parse_duration("1m30s").unwrap(), 90);
}

#[test]
fn test_parse_duration_errors() {
    assert!(parse_duration("").is_err());
    assert!(parse_duration("0m").is_err());
    assert!(parse_duration("abc").is_err());
    assert!(parse_duration("30x").is_err());
    assert!(parse_duration("30s").is_err()); // Less than 1 minute
    assert!(parse_duration("25h").is_err()); // More than 24 hours
}

#[test]
fn test_format_duration_seconds_only() {
    assert_eq!(format_duration(45), "45s");
    assert_eq!(format_duration(1), "1s");
}

#[test]
fn test_format_duration_minutes_and_seconds() {
    assert_eq!(format_duration(90), "1m 30s");
    assert_eq!(format_duration(3599), "59m 59s");
}

#[test]
fn test_format_duration_hours_minutes_seconds() {
    assert_eq!(format_duration(3600), "1h 00m 00s");
    assert_eq!(format_duration(3661), "1h 01m 01s");
    assert_eq!(format_duration(7200 + 1800 + 45), "2h 30m 45s");
}

#[test]
fn test_parse_duration_error_variants() {
    assert_eq!(parse_duration(""), Err(DurationError::Empty));
    assert_eq!(parse_duration("   "), Err(DurationError::Empty));
    assert_eq!(parse_duration("h"), Err(DurationError::MissingNumber));
    assert_eq!(parse_duration("30 h abc"), Err(DurationError::InvalidCharacter));
    assert_eq!(parse_duration("30x"), Err(DurationError::InvalidCharacter));
    assert_eq!(parse_duration("0m"), Err(DurationError::Zero));
    assert_eq!(parse_duration("0h0m0s"), Err(DurationError::Zero));
    assert_eq!(parse_duration("59s"), Err(DurationError::TooShort));
    assert_eq!(parse_duration("24h1s"), Err(DurationError::TooLong));
}

#[test]
fn test_parse_duration_boundaries() {
    assert_eq!(parse_duration("60s").unwrap(), 60);
    assert_eq!(parse_duration("1m").unwrap(), 60);
    assert_eq!(parse_duration("86400s").unwrap(), 86400);
    assert_eq!(parse_duration("86401s"), Err(DurationError::TooLong));
}

#[test]
fn test_parse_duration_case_insensitive_units() {
    assert_eq!(parse_duration("1H30M").unwrap(), 3600 + 30 * 60);
    assert_eq!(parse_duration("90S").unwrap(), 90);
}

#[test]
fn test_parse_duration_huge_number_rejected() {
    // A number far past the accepted range is rejected, never wrapped
    assert_eq!(parse_duration("99999999999999999999h"), Err(DurationError::TooLong));
}

#[test]
fn test_format_then_parse_round_trip() {
    // the canonical rendering of an accepted duration parses back to it
    assert_eq!(parse_duration("1h30m").unwrap(), 5400);
    assert_eq!(format_duration(5400), "1h 30m 00s");
    assert_eq!(parse_duration("1h 30m 00s").unwrap(), 5400);
    for secs in [60u64, 61, 90, 3599, 3600, 3661, 43200, 86399, 86400] {
        let rendered = format_duration(secs);
        assert_eq!(parse_duration(&rendered).unwrap(), secs);
    }
}

#[test]
fn test_duration_error_messages_distinct() {
    let messages = [
        DurationError::Empty.message(),
        DurationError::MissingNumber.message(),
        DurationError::InvalidCharacter.message(),
        DurationError::Zero.message(),
        DurationError::TooShort.message(),
        DurationError::TooLong.message(),
    ];
    for (i, a) in messages.iter().enumerate() {
        assert!(!a.is_empty());
        for (j, b) in messages.iter().enumerate() {
            if i != j {
                assert_ne!(a, b);
            }
        }
    }
}
