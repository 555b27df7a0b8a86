//! The calls this library makes into other crates. Verus takes the
//! contracts in this file on trust: each one says, above the function, what
//! it claims of the code it calls.

use vstd::prelude::*;
use crate::login::{pair_view, CookiePair};

verus! {

/// The error type of `serde_json`, carried through as it is.
#[verifier::external_type_specification]
#[verifier::external_body]
pub struct ExJsonError(serde_json::Error);

/// The JSON text that `serde_json::to_string` writes for a string: the
/// string between double quotes, with the escapes JSON asks for. `None`
/// where it reports an error.
pub uninterp spec fn json_text(text: Seq<char>) -> Option<Seq<char>>;

/// Name and value of the cookie that `cookie::Cookie::parse` reads from a
/// `set-cookie` header, or `None` where it reports a parse error.
pub uninterp spec fn cookie_pair(header: Seq<char>) -> Option<(Seq<char>, Seq<char>)>;

/// Name and value of the cookie that `cookie::Cookie::parse_encoded` reads
/// from a `set-cookie` header, both percent-decoded, or `None` where it
/// reports a parse error.
pub uninterp spec fn cookie_pair_decoded(header: Seq<char>) -> Option<(Seq<char>, Seq<char>)>;

/// Calls `serde_json::to_string` on a string. Claims that the outcome
/// depends on the string's characters alone: whether a text is written,
/// and which. Nothing is claimed of whether it ever fails.
#[verifier::external_body]
pub(crate) fn json_string(text: &str) -> (written: Result<String, serde_json::Error>)
    ensures
        match written {
            Ok(t) => json_text(text@) == Some(t@),
            Err(_) => json_text(text@) is None,
        },
{
    serde_json::to_string(text)
}

/// Formats a `serde_json::Error` with its `Debug` implementation. Nothing
/// is claimed of the text.
#[verifier::external_body]
pub(crate) fn describe_json_error(error: &serde_json::Error) -> (text: String) {
    format!("{:?}", error)
}

/// Calls `cookie::Cookie::parse` on a `set-cookie` header and hands out the
/// cookie's name and value, undecoded. Claims that the outcome depends on
/// the header's characters alone.
#[verifier::external_body]
pub(crate) fn parse_cookie(header: &str) -> (pair: Option<CookiePair>)
    ensures
        pair_view(pair) == cookie_pair(header@),
{
    match cookie::Cookie::parse(header) {
        Ok(c) => Some(CookiePair { name: c.name().to_string(), value: c.value().to_string() }),
        Err(_) => None,
    }
}

/// Calls `cookie::Cookie::parse_encoded` on a `set-cookie` header and hands
/// out the cookie's name and value, percent-decoded. Claims that the
/// outcome depends on the header's characters alone.
#[verifier::external_body]
pub(crate) fn parse_cookie_decoded(header: &str) -> (pair: Option<CookiePair>)
    ensures
        pair_view(pair) == cookie_pair_decoded(header@),
{
    match cookie::Cookie::parse_encoded(header) {
        Ok(c) => Some(CookiePair { name: c.name().to_string(), value: c.value().to_string() }),
        Err(_) => None,
    }
}

/// Reads the clock with `chrono::Utc::now` and takes the day of the month
/// with `chrono::Datelike::day`. Claims only the range that the method
/// documents. The clock must not stand before 1970: `now` panics there.
#[verifier::external_body]
pub(crate) fn utc_day_of_month() -> (day: u32)
    ensures
        1 <= day <= 31,
{
    chrono::Datelike::day(&chrono::Utc::now())
}

} // verus!
