//! Settings of the proxy: fixed values, and those read from the environment
//! with their defaults.

use vstd::prelude::*;

use crate::text::{decimal_text, lemma_decimal_text_parses, parse_u64, parse_usize, parsed_unsigned};

verus! {

/// Port the proxy listens on; the Lambda Web Adapter forwards traffic here.
pub const PROXY_LISTEN_PORT: u16 = 8080;

/// Address of the Meilisearch child process.
pub const MEILISEARCH_HOST: &'static str = "http://localhost:7700";

/// Why a setting read from the environment cannot be used.
#[derive(Debug, Clone, Copy, PartialEq, Eq, Structural)]
pub enum ConfigError {
    /// The text is not an unsigned decimal number of the setting's type.
    NotANumber,
    /// The number parses, but the value derived from it does not fit.
    OutOfRange,
}

/// The text a setting takes: the environment's value when there is one,
/// else the default.
pub open spec fn setting_text(raw: Option<&str>, default: &str) -> Seq<char> {
    match raw {
        Some(s) => s@,
        None => default@,
    }
}

/// Seconds to wait for a task: the Lambda timeout minus one second of
/// headroom (`AWS_LAMBDA_TIMEOUT_SECONDS`, default `300`).
pub open spec fn spec_max_wait_secs(raw: Option<&str>) -> Result<u64, ConfigError> {
    match parsed_unsigned(setting_text(raw, "300"), u64::MAX as nat) {
        None => Err(ConfigError::NotANumber),
        Some(t) => if t == 0 {
            Err(ConfigError::OutOfRange)
        } else {
            Ok((t - 1) as u64)
        },
    }
}

/// Milliseconds between two polls of a task (`MEILISEARCH_POLL_INTERVAL_MS`,
/// default `100`).
pub open spec fn spec_poll_interval_ms(raw: Option<&str>) -> Result<u64, ConfigError> {
    match parsed_unsigned(setting_text(raw, "100"), u64::MAX as nat) {
        None => Err(ConfigError::NotANumber),
        Some(ms) => Ok(ms as u64),
    }
}

/// Bytes in a mebibyte.
pub open spec fn mebibyte() -> nat {
    1024 * 1024
}

/// Largest accepted request body in bytes (`MAX_REQUEST_BODY_SIZE_MB`
/// mebibytes, default `100`).
pub open spec fn spec_max_request_body_size(raw: Option<&str>) -> Result<usize, ConfigError> {
    match parsed_unsigned(setting_text(raw, "100"), usize::MAX as nat) {
        None => Err(ConfigError::NotANumber),
        Some(mb) => if mb * mebibyte() > usize::MAX {
            Err(ConfigError::OutOfRange)
        } else {
            Ok((mb * mebibyte()) as usize)
        },
    }
}

fn setting<'a>(raw: Option<&'a str>, default: &'a str) -> (r: &'a str)
    ensures
        r@ == setting_text(raw, default),
{
    match raw {
        Some(s) => s,
        None => default,
    }
}

/// Seconds to wait for an async task before giving up.
pub fn max_wait_secs(raw: Option<&str>) -> (r: Result<u64, ConfigError>)
    ensures
        r == spec_max_wait_secs(raw),
{
    match parse_u64(setting(raw, "300")) {
        None => Err(ConfigError::NotANumber),
        Some(t) => if t == 0 {
            Err(ConfigError::OutOfRange)
        } else {
            Ok(t - 1)
        },
    }
}

/// Milliseconds between two polls of a task.
pub fn poll_interval_ms(raw: Option<&str>) -> (r: Result<u64, ConfigError>)
    ensures
        r == spec_poll_interval_ms(raw),
{
    match parse_u64(setting(raw, "100")) {
        None => Err(ConfigError::NotANumber),
        Some(ms) => Ok(ms),
    }
}

/// Largest accepted request body in bytes.
pub fn max_request_body_size(raw: Option<&str>) -> (r: Result<usize, ConfigError>)
    ensures
        r == spec_max_request_body_size(raw),
{
    match parse_usize(setting(raw, "100")) {
        None => Err(ConfigError::NotANumber),
        Some(mb) => match mb.checked_mul(1024 * 1024) {
            None => Err(ConfigError::OutOfRange),
            Some(bytes) => Ok(bytes),
        },
    }
}


/// A Lambda timeout of `t` seconds (`t >= 1`) leaves `t - 1` seconds to
/// wait for a task: one second of headroom, whatever the timeout.
pub proof fn lemma_wait_keeps_one_second(text: &str, t: nat)
    requires
        parsed_unsigned(text@, u64::MAX as nat) == Some(t),
        1 <= t,
    ensures
        spec_max_wait_secs(Some(text)) == Ok::<u64, ConfigError>((t - 1) as u64),
{
}

/// Written in decimal, every timeout from 1 to `u64::MAX` seconds gives one
/// second less; 0 is out of range; text that is not a number is refused;
/// an unset timeout counts as `300`.
pub proof fn lemma_wait_for_every_timeout(text: &str, t: u64)
    ensures
        text@ == decimal_text(t as nat) ==> spec_max_wait_secs(Some(text)) == if t == 0 {
            Err::<u64, ConfigError>(ConfigError::OutOfRange)
        } else {
            Ok::<u64, ConfigError>((t - 1) as u64)
        },
        parsed_unsigned(text@, u64::MAX as nat) is None ==> spec_max_wait_secs(Some(text)) == Err::<
            u64,
            ConfigError,
        >(ConfigError::NotANumber),
        spec_max_wait_secs(None) == spec_max_wait_secs(Some("300")),
{
    lemma_decimal_text_parses(t as nat, u64::MAX as nat);
}

/// A limit of `mb` mebibytes is `mb * 1048576` bytes whenever that fits in
/// a `usize`, and out of range otherwise; an unset limit counts as `100`.
pub proof fn lemma_body_limit_in_mebibytes(text: &str, mb: nat)
    requires
        parsed_unsigned(text@, usize::MAX as nat) == Some(mb),
    ensures
        mb * 1048576 <= usize::MAX ==> spec_max_request_body_size(Some(text)) == Ok::<usize, ConfigError>(
            (mb * 1048576) as usize,
        ),
        mb * 1048576 > usize::MAX ==> spec_max_request_body_size(Some(text)) == Err::<usize, ConfigError>(
            ConfigError::OutOfRange,
        ),
        spec_max_request_body_size(None) == spec_max_request_body_size(Some("100")),
{
}

/// Every limit written in decimal is read as that many mebibytes.
pub proof fn lemma_body_limit_for_every_size(text: &str, mb: usize)
    requires
        text@ == decimal_text(mb as nat),
        mb * 1048576 <= usize::MAX,
    ensures
        spec_max_request_body_size(Some(text)) == Ok::<usize, ConfigError>((mb * 1048576) as usize),
{
    lemma_decimal_text_parses(mb as nat, usize::MAX as nat);
}

/// A poll interval of `ms` milliseconds is used as given; an unset one
/// counts as `100`.
pub proof fn lemma_poll_interval_as_given(text: &str, ms: u64)
    ensures
        text@ == decimal_text(ms as nat) ==> spec_poll_interval_ms(Some(text)) == Ok::<
            u64,
            ConfigError,
        >(ms),
        parsed_unsigned(text@, u64::MAX as nat) is None ==> spec_poll_interval_ms(Some(text))
            == Err::<u64, ConfigError>(ConfigError::NotANumber),
        spec_poll_interval_ms(None) == spec_poll_interval_ms(Some("100")),
{
    lemma_decimal_text_parses(ms as nat, u64::MAX as nat);
}

} // verus!
