use tarmac::api::RobloxApiError;
use tarmac::commands::parse_resize_var;
use tarmac::sync::{retry_decision, RetryAction, RetryPolicy, UploadAttempts};
use tarmac::text::{parse_u32, parse_u64, str_contains, str_eq, u64_to_string};

#[test]
fn u64_rendering() {
    assert_eq!(u64_to_string(0), "0");
    assert_eq!(u64_to_string(42), "42");
    assert_eq!(u64_to_string(u64::MAX), "18446744073709551615");
}

#[test]
fn u64_parsing_accepts_digits_only() {
    assert_eq!(parse_u64("0"), Some(0));
    assert_eq!(parse_u64("007"), Some(7));
    assert_eq!(parse_u64("18446744073709551615"), Some(u64::MAX));
    assert_eq!(parse_u64("18446744073709551616"), None);
    assert_eq!(parse_u64(""), None);
    assert_eq!(parse_u64("12a"), None);
    assert_eq!(parse_u64("+1"), None);
    assert_eq!(parse_u64("-1"), None);
}

#[test]
fn u32_parsing_checks_range() {
    assert_eq!(parse_u32("4294967295"), Some(u32::MAX));
    assert_eq!(parse_u32("4294967296"), None);
}

#[test]
fn string_helpers() {
    assert!(str_eq("abc", "abc"));
    assert!(!str_eq("abc", "abd"));
    assert!(!str_eq("abc", "ab"));
    assert!(str_contains("wholly inappropriate name", "inappropriate"));
    assert!(!str_contains("fine name", "inappropriate"));
    assert!(str_contains("abc", ""));
}

#[test]
fn resize_argument_parses_wxh() {
    assert_eq!(parse_resize_var("100x200"), Ok((100, 200)));
    assert_eq!(parse_resize_var("64x64"), Ok((64, 64)));
    assert_eq!(parse_resize_var("0x0"), Ok((0, 0)));
}

#[test]
fn resize_argument_rejects_bad_shapes() {
    assert!(parse_resize_var("100").is_err());
    assert!(parse_resize_var("ax10").is_err());
    assert!(parse_resize_var("10x").is_err());
    assert!(parse_resize_var("x10").is_err());
    assert!(parse_resize_var("10x20x30").is_err());
    assert!(parse_resize_var("4294967296x1").is_err());
    let msg = parse_resize_var("nope").unwrap_err();
    assert!(msg.contains("WxH"));
}

#[test]
fn rate_limited_failures_are_retried_with_fixed_delay() {
    let policy = RetryPolicy { max_retries: Some(2), delay_ms: 250 };
    let mut state = UploadAttempts { retries: 0 };
    let rate_limited = RobloxApiError::ResponseError { status: 429, body: "slow down".to_owned() };
    assert_eq!(
        retry_decision(&policy, &mut state, &rate_limited),
        RetryAction::Retry { delay_ms: 250 }
    );
    assert_eq!(
        retry_decision(&policy, &mut state, &rate_limited),
        RetryAction::Retry { delay_ms: 250 }
    );
    // the budget of two retries is spent
    assert_eq!(
        retry_decision(&policy, &mut state, &rate_limited),
        RetryAction::Abort
    );
}

#[test]
fn unlimited_retries_when_no_maximum_is_configured() {
    let policy = RetryPolicy { max_retries: None, delay_ms: 10 };
    let mut state = UploadAttempts { retries: 0 };
    let rate_limited = RobloxApiError::ResponseError { status: 429, body: String::new() };
    for _ in 0..50 {
        assert_eq!(
            retry_decision(&policy, &mut state, &rate_limited),
            RetryAction::Retry { delay_ms: 10 }
        );
    }
}

#[test]
fn other_errors_abort_immediately() {
    let policy = RetryPolicy { max_retries: Some(5), delay_ms: 10 };
    let mut state = UploadAttempts { retries: 0 };
    let fatal = RobloxApiError::ResponseError { status: 500, body: String::new() };
    assert_eq!(retry_decision(&policy, &mut state, &fatal), RetryAction::Abort);
    let api = RobloxApiError::ApiError { message: "no".to_owned() };
    assert_eq!(retry_decision(&policy, &mut state, &api), RetryAction::Abort);
    assert_eq!(state.retries, 0);
}

#[test]
fn error_messages_carry_context() {
    let e = RobloxApiError::ResponseError { status: 418, body: "teapot".to_owned() };
    assert_eq!(e.message(), "Roblox API returned HTTP 418 with body: teapot");
    let e2 = RobloxApiError::ApiError { message: "denied".to_owned() };
    assert_eq!(e2.message(), "Roblox API error: denied");
    let e3 = RobloxApiError::MissingAuth;
    assert_eq!(e3.message(), "Unable to locate an authentication method");
}
