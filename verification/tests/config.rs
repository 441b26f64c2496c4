use meilisearch_wrapper::config::{
    max_request_body_size, max_wait_secs, poll_interval_ms, ConfigError, MEILISEARCH_HOST,
    PROXY_LISTEN_PORT,
};
use meilisearch_wrapper::text::decimal_string;

#[test]
fn defaults_apply_when_unset() {
    assert_eq!(max_wait_secs(None), Ok(299));
    assert_eq!(poll_interval_ms(None), Ok(100));
    assert_eq!(max_request_body_size(None), Ok(100 * 1024 * 1024));
    assert_eq!(PROXY_LISTEN_PORT, 8080);
    assert_eq!(MEILISEARCH_HOST, "http://localhost:7700");
}

#[test]
fn wait_time_keeps_one_second_of_headroom() {
    assert_eq!(max_wait_secs(Some("900")), Ok(899));
    assert_eq!(max_wait_secs(Some("1")), Ok(0));
    assert_eq!(max_wait_secs(Some("0")), Err(ConfigError::OutOfRange));
    assert_eq!(max_wait_secs(Some("ten")), Err(ConfigError::NotANumber));
    assert_eq!(max_wait_secs(Some("")), Err(ConfigError::NotANumber));
}

#[test]
fn poll_interval_is_read_as_given() {
    assert_eq!(poll_interval_ms(Some("250")), Ok(250));
    assert_eq!(poll_interval_ms(Some("0")), Ok(0));
    assert_eq!(poll_interval_ms(Some("-5")), Err(ConfigError::NotANumber));
    assert_eq!(poll_interval_ms(Some(" 5")), Err(ConfigError::NotANumber));
}

#[test]
fn body_size_limit_is_in_mebibytes() {
    assert_eq!(max_request_body_size(Some("1")), Ok(1_048_576));
    assert_eq!(max_request_body_size(Some("+2")), Ok(2_097_152));
    assert_eq!(max_request_body_size(Some("1.5")), Err(ConfigError::NotANumber));
    let too_big = (usize::MAX / 1_048_576 + 1).to_string();
    assert_eq!(max_request_body_size(Some(&too_big)), Err(ConfigError::OutOfRange));
}

#[test]
fn settings_are_read_as_std_reads_unsigned_numbers() {
    assert_eq!(poll_interval_ms(Some("300")), Ok(300));
    assert_eq!(poll_interval_ms(Some("+7")), Ok(7));
    assert_eq!(poll_interval_ms(Some("007")), Ok(7));
    assert_eq!(poll_interval_ms(Some("+")), Err(ConfigError::NotANumber));
    assert_eq!(poll_interval_ms(Some("-1")), Err(ConfigError::NotANumber));
    assert_eq!(poll_interval_ms(Some("18446744073709551615")), Ok(u64::MAX));
    assert_eq!(poll_interval_ms(Some("18446744073709551616")), Err(ConfigError::NotANumber));
    assert_eq!(max_wait_secs(Some("18446744073709551615")), Ok(u64::MAX - 1));
    assert_eq!(max_request_body_size(Some("0")), Ok(0));
    assert_eq!(max_request_body_size(Some("4 2")), Err(ConfigError::NotANumber));
}

#[test]
fn decimal_text_has_no_leading_zero() {
    assert_eq!(decimal_string(0), "0");
    assert_eq!(decimal_string(7), "7");
    assert_eq!(decimal_string(1234), "1234");
    assert_eq!(decimal_string(u64::MAX), u64::MAX.to_string());
}
