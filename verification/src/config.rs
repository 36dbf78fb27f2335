//! Settings read from the environment at startup.

use vstd::prelude::*;

verus! {

/// How long the server waits for connections to drain on shutdown, in
/// seconds, when nothing else is configured.
pub const DEFAULT_SHUTDOWN_TIMEOUT_SECS: u64 = 30;

/// Whether `c` is an ASCII decimal digit.
pub open spec fn is_decimal_digit(c: char) -> bool {
    '0' <= c && c <= '9'
}

/// The number the decimal digits `ds` write, most significant first.
pub open spec fn decimal_value(ds: Seq<char>) -> int
    decreases ds.len(),
{
    if ds.len() == 0 {
        0
    } else {
        decimal_value(ds.drop_last()) * 10 + (ds.last() as int - '0' as int)
    }
}

/// The digits of `text` once an optional leading `+` is dropped.
pub open spec fn unsigned_digits(text: Seq<char>) -> Seq<char> {
    if text.len() > 0 && text[0] == '+' {
        text.skip(1)
    } else {
        text
    }
}

/// What `str::parse::<u64>` makes of the given text: an optional `+`
/// followed by at least one decimal digit and nothing else, whose value fits
/// in a `u64`; `None` otherwise.
pub open spec fn parsed_u64(text: Seq<char>) -> Option<u64> {
    let ds = unsigned_digits(text);
    if ds.len() > 0 && (forall|i: int| 0 <= i < ds.len() ==> is_decimal_digit(#[trigger] ds[i]))
        && decimal_value(ds) <= u64::MAX {
        Some(decimal_value(ds) as u64)
    } else {
        None
    }
}

/// Reads `text` as a decimal number (`str::parse::<u64>`).
#[verifier::external_body]
fn parse_u64(text: &str) -> (n: Option<u64>)
    ensures
        n == parsed_u64(text@),
{
    text.parse::<u64>().ok()
}

/// The drain timeout once the configured text has been read as a number:
/// that number, or the default when it did not parse.
pub fn shutdown_timeout_from(parsed: Option<u64>) -> (secs: u64)
    ensures
        secs == match parsed {
            Some(n) => n,
            None => DEFAULT_SHUTDOWN_TIMEOUT_SECS,
        },
{
    match parsed {
        Some(n) => n,
        None => DEFAULT_SHUTDOWN_TIMEOUT_SECS,
    }
}

/// The drain timeout for the value of `SHUTDOWN_TIMEOUT_SECS`, if it is
/// set: its number when it reads as one, 30 seconds otherwise.
pub fn shutdown_timeout_secs(raw: Option<&str>) -> (secs: u64)
    ensures
        secs == match raw {
            Some(text) => match parsed_u64(text@) {
                Some(n) => n,
                None => DEFAULT_SHUTDOWN_TIMEOUT_SECS,
            },
            None => DEFAULT_SHUTDOWN_TIMEOUT_SECS,
        },
{
    match raw {
        Some(text) => shutdown_timeout_from(parse_u64(text)),
        None => DEFAULT_SHUTDOWN_TIMEOUT_SECS,
    }
}

} // verus!
