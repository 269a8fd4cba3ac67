use sigtrace::HeaderField;
use sigtrace::SetupError;
use sigtrace::TraceProvider;
use sigtrace::parse_header;
use sigtrace::parse_u64_numeral;

#[test]
fn reads_last_two_tokens() {
    assert_eq!(parse_header("5 7", "mem").unwrap(), (5, 7));
    assert_eq!(parse_header("junk 10 20", "mem").unwrap(), (10, 20));
    assert_eq!(parse_header("10\t20\n", "mem").unwrap(), (10, 20));
    assert_eq!(parse_header("  3   4  ", "mem").unwrap(), (3, 4));
}

#[test]
fn accepts_plus_signed_counts() {
    assert_eq!(parse_header("+3 +4", "mem").unwrap(), (3, 4));
}

#[test]
fn malformed_cycle_token_is_named() {
    let err = parse_header("5 x7", "trace.hello").unwrap_err();
    match err {
        SetupError::BadToken { which, token, source } => {
            assert_eq!(which, HeaderField::NumCycles);
            assert_eq!(token, "x7");
            assert_eq!(source, "trace.hello");
        },
        other => panic!("unexpected error: {other:?}"),
    }
}

#[test]
fn malformed_signal_token_is_named() {
    let err = parse_header("five 7", "trace.hello").unwrap_err();
    match err {
        SetupError::BadToken { which, token, source } => {
            assert_eq!(which, HeaderField::NumSignals);
            assert_eq!(token, "five");
            assert_eq!(source, "trace.hello");
        },
        other => panic!("unexpected error: {other:?}"),
    }
}

#[test]
fn overflowing_token_is_rejected() {
    let err = parse_header("99999999999999999999 5", "mem").unwrap_err();
    match err {
        SetupError::BadToken { which, token, .. } => {
            assert_eq!(which, HeaderField::NumSignals);
            assert_eq!(token, "99999999999999999999");
        },
        other => panic!("unexpected error: {other:?}"),
    }
}

#[test]
fn empty_header_misses_cycle_count() {
    let err = parse_header("", "mem").unwrap_err();
    assert!(matches!(
        err,
        SetupError::MissingToken { which: HeaderField::NumCycles, .. }
    ));
    let err = parse_header("   \n\t ", "mem").unwrap_err();
    assert!(matches!(
        err,
        SetupError::MissingToken { which: HeaderField::NumCycles, .. }
    ));
}

#[test]
fn single_token_misses_signal_count() {
    let err = parse_header("42", "mem").unwrap_err();
    assert!(matches!(
        err,
        SetupError::MissingToken { which: HeaderField::NumSignals, .. }
    ));
}

#[test]
fn error_accessor_exposes_token() {
    let err = parse_header("5 x7", "mem").unwrap_err();
    assert_eq!(err.token().unwrap().as_str(), "x7");
    let err = parse_header("", "mem").unwrap_err();
    assert!(err.token().is_none());
}

#[test]
fn provider_from_header() {
    let p = TraceProvider::from_header("3 4", "mem").unwrap();
    assert_eq!(p.enumerate_signals().len(), 3);
    assert_eq!(p.cycle_count(), 4);
}

#[test]
fn provider_from_malformed_header_fails() {
    let err = TraceProvider::from_header("oops", "mem").unwrap_err();
    assert!(matches!(err, SetupError::BadToken { which: HeaderField::NumCycles, .. }));
}

#[test]
fn decimal_rendering() {
    let mut s = String::from("x");
    sigtrace::push_decimal(&mut s, 0);
    assert_eq!(s, "x0");
    sigtrace::push_decimal(&mut s, 907);
    assert_eq!(s, "x0907");
    let mut m = String::new();
    sigtrace::push_decimal(&mut m, u64::MAX);
    assert_eq!(m, "18446744073709551615");
}

#[test]
fn rendered_numerals_parse_back() {
    for n in [0u64, 1, 9, 10, 16, 99, 100, 65535, 1_000_000_007, u64::MAX] {
        let mut s = String::new();
        sigtrace::push_decimal(&mut s, n);
        assert_eq!(parse_u64_numeral(&s), Some(n));
    }
}

#[test]
fn numeral_parsing() {
    assert_eq!(parse_u64_numeral("0"), Some(0));
    assert_eq!(parse_u64_numeral("123"), Some(123));
    assert_eq!(parse_u64_numeral("+7"), Some(7));
    assert_eq!(parse_u64_numeral("18446744073709551615"), Some(u64::MAX));
    assert_eq!(parse_u64_numeral("18446744073709551616"), None);
    assert_eq!(parse_u64_numeral(""), None);
    assert_eq!(parse_u64_numeral("+"), None);
    assert_eq!(parse_u64_numeral("12a"), None);
    assert_eq!(parse_u64_numeral("-3"), None);
    assert_eq!(parse_u64_numeral("1 2"), None);
}
