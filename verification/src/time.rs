//! Instants as they appear in replies.
use std::fmt::Write;
use vstd::prelude::*;
use vstd::string::*;
use crate::json::{json_string_text, opt_text, quote};

verus! {

/// The text of the instant `secs` seconds and `nanos` nanoseconds after the
/// Unix epoch under a strftime-style `pattern`; `None` where the instant is
/// out of range or the pattern is not understood.
pub uninterp spec fn timestamp_text(secs: i64, nanos: u32, pattern: Seq<char>) -> Option<Seq<char>>;

/// Builds the instant with `chrono::DateTime::from_timestamp` and writes it
/// with `NaiveDateTime::format`. Trusted to depend on the arguments alone:
/// the instant is taken in UTC and no locale is consulted.
#[verifier::external_body]
fn format_timestamp(secs: i64, nanos: u32, pattern: &str) -> (r: Option<String>)
    ensures
        opt_text(r) == timestamp_text(secs, nanos, pattern@),
{
    match chrono::DateTime::from_timestamp(secs, nanos) {
        Some(moment) => {
            let mut out = String::new();
            match write!(out, "{}", moment.naive_utc().format(pattern)) {
                Ok(()) => Some(out),
                Err(_) => None,
            }
        },
        None => None,
    }
}

/// An instant: seconds since the Unix epoch and nanoseconds past the second.
#[derive(Debug, Clone, Copy, PartialEq, Eq, Structural)]
pub struct CustomDateTime {
    pub secs: i64,
    pub nanos: u32,
}

/// ISO-8601 in UTC, to the millisecond, with a trailing `Z`.
pub open spec fn iso_millis() -> Seq<char> {
    "%Y-%m-%dT%H:%M:%S%.3fZ"@
}

impl CustomDateTime {
    /// The instant as a JSON string value, where it can be written.
    pub open spec fn spec_json(self) -> Option<Seq<char>> {
        match timestamp_text(self.secs, self.nanos, iso_millis()) {
            Some(text) => Some(json_string_text(text)),
            None => None,
        }
    }

    pub fn from_timestamp(secs: i64, nanos: u32) -> (r: Self)
        ensures
            r == (CustomDateTime { secs, nanos }),
    {
        CustomDateTime { secs, nanos }
    }

    /// The instant as a JSON string value; `None` where it cannot be written.
    pub fn to_json(&self) -> (r: Option<String>)
        ensures
            opt_text(r) == self.spec_json(),
    {
        match format_timestamp(self.secs, self.nanos, "%Y-%m-%dT%H:%M:%S%.3fZ") {
            Some(text) => Some(quote(text.as_str())),
            None => None,
        }
    }
}

} // verus!
