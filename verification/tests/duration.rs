//! The timeout parameter parser.

use git_status_vars::{parse_duration, DurationValue, Params};

fn zero() -> DurationValue {
    DurationValue { secs: 0, nanos: 0 }
}

#[test]
fn duration_empty_means_no_timeout() {
    assert_eq!(parse_duration(""), Ok(zero()));
    assert_eq!(parse_duration("   "), Ok(zero()));
}

#[test]
fn duration_zero_means_no_timeout() {
    assert_eq!(parse_duration("0"), Ok(zero()));
    assert_eq!(parse_duration(" 0 "), Ok(zero()));
}

#[test]
fn duration_none_means_no_timeout() {
    assert_eq!(parse_duration("none"), Ok(zero()));
    assert_eq!(parse_duration("NONE"), Ok(zero()));
    assert_eq!(parse_duration("None"), Ok(zero()));
}

#[test]
fn duration_bare_digits_are_seconds() {
    assert_eq!(parse_duration("5"), Ok(DurationValue { secs: 5, nanos: 0 }));
    assert_eq!(parse_duration(" 90 "), Ok(DurationValue { secs: 90, nanos: 0 }));
    // Trimming covers Unicode whitespace, here a no-break space.
    assert_eq!(
        parse_duration("\u{00A0}5\u{00A0}"),
        Ok(DurationValue { secs: 5, nanos: 0 })
    );
    assert_eq!(
        parse_duration("18446744073709551615"),
        Ok(DurationValue { secs: u64::MAX, nanos: 0 })
    );
}

#[test]
fn duration_negative_is_rejected() {
    assert_eq!(
        parse_duration("-1"),
        Err("duration cannot be negative".to_owned())
    );
    assert_eq!(
        parse_duration("-1s"),
        Err("duration cannot be negative".to_owned())
    );
}

#[test]
fn duration_overflowing_seconds_are_rejected() {
    assert_eq!(
        parse_duration("18446744073709551616"),
        Err("seconds value too large".to_owned())
    );
}

#[test]
fn duration_words_are_parsed() {
    assert_eq!(parse_duration("1s"), Ok(DurationValue { secs: 1, nanos: 0 }));
    assert_eq!(
        parse_duration("200ms"),
        Ok(DurationValue { secs: 0, nanos: 200_000_000 })
    );
    assert_eq!(
        parse_duration("2s 50ms"),
        Ok(DurationValue { secs: 2, nanos: 50_000_000 })
    );
}

#[test]
fn duration_garbage_is_rejected() {
    assert!(parse_duration("eleven").is_err());
    assert!(parse_duration("5 bananas").is_err());
}

#[test]
fn params_hold_configuration() {
    let params = Params {
        repositories: vec!["a".to_owned(), "b".to_owned()],
        prefix: Some("local ".to_owned()),
        verbose: false,
        timeout: parse_duration("500ms").unwrap(),
    };
    assert_eq!(params.repositories.len(), 2);
    assert_eq!(params.timeout, DurationValue { secs: 0, nanos: 500_000_000 });
}
