//! Client configuration: where the backend lives and how long a call may take.

use vstd::prelude::*;
use vstd::string::*;

verus! {

/// Timeout, in seconds, used when none is configured or the configured text is not a number.
pub const DEFAULT_TIMEOUT_SECONDS: u64 = 30;

/// Base URL used when none is configured.
pub open spec fn default_base_url() -> Seq<char> {
    "http://localhost:3000"@
}

/// True for the ten decimal digits.
pub open spec fn is_digit(c: char) -> bool {
    '0' <= c <= '9'
}

/// The number that a run of decimal digits denotes; an empty run denotes 0.
pub open spec fn digits_value(digits: Seq<char>) -> nat
    decreases digits.len(),
{
    if digits.len() == 0 {
        0
    } else {
        digits_value(digits.drop_last()) * 10 + (digits.last() as nat - '0' as nat) as nat
    }
}

/// The text without one leading `+`, if it has one.
pub open spec fn unsigned_part(text: Seq<char>) -> Seq<char> {
    if text.len() > 0 && text[0] == '+' {
        text.skip(1)
    } else {
        text
    }
}

/// The number that a text denotes as an unsigned 64-bit integer: an optional
/// `+`, then one or more decimal digits and nothing else, with a value that
/// fits in 64 bits. Any other text denotes none.
pub open spec fn parsed_u64(text: Seq<char>) -> Option<u64> {
    let digits = unsigned_part(text);
    if digits.len() > 0 && (forall|i: int| 0 <= i < digits.len() ==> is_digit(#[trigger] digits[i]))
        && digits_value(digits) <= u64::MAX {
        Some(digits_value(digits) as u64)
    } else {
        None
    }
}

/// Calls `str::parse::<u64>` and drops the error's detail. The text must be
/// an optional `+` followed by decimal digits only; an empty text, any other
/// character and a value beyond 64 bits are errors.
#[verifier::external_body]
fn parse_u64(text: &str) -> (value: Option<u64>)
    ensures
        value == parsed_u64(text@),
{
    text.parse::<u64>().ok()
}

/// The timeout that a configured text stands for, given what parsing it produced.
pub open spec fn timeout_from(parsed: Option<Option<u64>>) -> u64 {
    match parsed {
        Some(Some(seconds)) => seconds,
        _ => DEFAULT_TIMEOUT_SECONDS,
    }
}

/// Picks the configured timeout: the parsed number when there is one, the default
/// when the setting is absent (`None`) or did not parse (`Some(None)`).
pub fn resolve_timeout(parsed: Option<Option<u64>>) -> (seconds: u64)
    ensures
        seconds == timeout_from(parsed),
{
    match parsed {
        Some(Some(seconds)) => seconds,
        _ => DEFAULT_TIMEOUT_SECONDS,
    }
}

/// Settings of the HTTP gateway.
#[derive(Debug, Clone)]
pub struct AppConfig {
    pub api_base_url: String,
    pub api_timeout_seconds: u64,
}

impl AppConfig {
    /// Builds the configuration from the two optional settings as the process
    /// environment gave them: the base URL and the timeout as text.
    pub fn new(base_url: Option<String>, timeout_text: Option<String>) -> (config: AppConfig)
        ensures
            config.api_base_url@ == match base_url {
                Some(url) => url@,
                None => default_base_url(),
            },
            config.api_timeout_seconds == timeout_from(
                match timeout_text {
                    Some(text) => Some(parsed_u64(text@)),
                    None => None,
                },
            ),
    {
        let api_base_url = match base_url {
            Some(url) => url,
            None => String::from_str("http://localhost:3000"),
        };
        let parsed = match timeout_text {
            Some(text) => Some(parse_u64(text.as_str())),
            None => None,
        };
        AppConfig { api_base_url, api_timeout_seconds: resolve_timeout(parsed) }
    }
}

} // verus!
