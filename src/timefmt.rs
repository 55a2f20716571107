//! Instants as milliseconds since the Unix epoch: reading them from RFC 3339
//! text, writing them in UTC, and the skewed time windows that alert links
//! carry.

use std::fmt::Write;
use vstd::prelude::*;

verus! {

/// The pattern alert links write instants with: UTC, to the millisecond.
pub const LINK_TIME_FORMAT: &'static str = "%Y-%m-%dT%H:%M:%S%.3fZ";

pub const MINUTE_MILLIS: i64 = 60000;

/// The instant an RFC 3339 text names, in milliseconds since the epoch.
pub uninterp spec fn rfc3339_millis(s: Seq<char>) -> Option<int>;

/// The UTC instant `ms` written with the strftime pattern `fmt`.
pub uninterp spec fn utc_text(ms: int, fmt: Seq<char>) -> Option<Seq<char>>;

/// A text with every byte but ASCII letters, digits and `-_.~` percent-encoded.
pub uninterp spec fn percent_encoded(s: Seq<char>) -> Seq<char>;

/// Relies on chrono's `DateTime::parse_from_rfc3339`, read out with
/// `timestamp_millis`: the instant the text names, or `None` when it is no
/// RFC 3339 date and time.
#[verifier::external_body]
fn parse_rfc3339_millis(s: &str) -> (r: Option<i64>)
    ensures
        match r {
            Some(ms) => rfc3339_millis(s@) == Some(ms as int),
            None => rfc3339_millis(s@) is None,
        },
{
    match chrono::DateTime::parse_from_rfc3339(s) {
        Ok(dt) => Some(dt.timestamp_millis()),
        Err(_) => None,
    }
}

/// Relies on chrono's `DateTime::from_timestamp_millis` and
/// `DateTime::format`: the instant written in UTC with the pattern, or `None`
/// when the instant is out of chrono's range or the pattern is invalid.
#[verifier::external_body]
fn format_utc_millis(ms: i64, fmt: &str) -> (r: Option<String>)
    ensures
        match r {
            Some(t) => utc_text(ms as int, fmt@) == Some(t@),
            None => utc_text(ms as int, fmt@) is None,
        },
{
    let dt = chrono::DateTime::from_timestamp_millis(ms)?;
    let mut out = String::new();
    match write!(out, "{}", dt.format(fmt)) {
        Ok(()) => Some(out),
        Err(_) => None,
    }
}

/// Relies on `urlencoding::encode`, which depends on the text alone.
#[verifier::external_body]
fn url_encode(s: &str) -> (r: String)
    ensures
        r@ == percent_encoded(s@),
{
    urlencoding::encode(s).into_owned()
}

/// Relies on chrono's `Utc::now`, read out with `timestamp_millis`: the
/// current time. Nothing is known of the value.
#[verifier::external_body]
pub(crate) fn utc_now_millis() -> (r: i64) {
    chrono::Utc::now().timestamp_millis()
}

pub open spec fn fits_i64(x: int) -> bool {
    i64::MIN <= x <= i64::MAX
}

/// The window `skew` minutes either side of the instant `ts` names, both
/// ends written with `fmt` and percent-encoded.
pub open spec fn skew_window(ts: Seq<char>, fmt: Seq<char>, skew: int) -> Option<(Seq<char>, Seq<char>)> {
    match rfc3339_millis(ts) {
        None => None,
        Some(ms) => {
            let d = skew * MINUTE_MILLIS;
            if !(fits_i64(d) && fits_i64(ms - d) && fits_i64(ms + d)) {
                None
            } else {
                match (utc_text(ms - d, fmt), utc_text(ms + d, fmt)) {
                    (Some(a), Some(b)) => Some((percent_encoded(a), percent_encoded(b))),
                    _ => None,
                }
            }
        },
    }
}

/// Why no window could be given.
pub enum SkewError {
    /// The timestamp is no RFC 3339 date and time.
    Unparseable,
    /// An end of the window cannot be written: out of range, or a bad pattern.
    OutOfRange,
}

/// The window `skew_minutes` minutes either side of the instant `ts_str`
/// names, each end written with `format` and percent-encoded.
pub fn format_and_skew(ts_str: &str, format: &str, skew_minutes: i64) -> (r: Result<(String, String), SkewError>)
    ensures
        match r {
            Ok((a, b)) => skew_window(ts_str@, format@, skew_minutes as int) == Some((a@, b@)),
            Err(SkewError::Unparseable) => rfc3339_millis(ts_str@) is None,
            Err(SkewError::OutOfRange) => rfc3339_millis(ts_str@) is Some && skew_window(
                ts_str@,
                format@,
                skew_minutes as int,
            ) is None,
        },
{
    let ms = match parse_rfc3339_millis(ts_str) {
        Some(ms) => ms,
        None => return Err(SkewError::Unparseable),
    };
    let d = match skew_minutes.checked_mul(MINUTE_MILLIS) {
        Some(d) => d,
        None => return Err(SkewError::OutOfRange),
    };
    let from_ms = match ms.checked_sub(d) {
        Some(x) => x,
        None => return Err(SkewError::OutOfRange),
    };
    let to_ms = match ms.checked_add(d) {
        Some(x) => x,
        None => return Err(SkewError::OutOfRange),
    };
    let from_text = match format_utc_millis(from_ms, format) {
        Some(t) => t,
        None => return Err(SkewError::OutOfRange),
    };
    let to_text = match format_utc_millis(to_ms, format) {
        Some(t) => t,
        None => return Err(SkewError::OutOfRange),
    };
    Ok((url_encode(from_text.as_str()), url_encode(to_text.as_str())))
}

/// An RFC 3339 timestamp rewritten in UTC with `fmt`.
pub open spec fn rewritten(ts: Seq<char>, fmt: Seq<char>) -> Option<Seq<char>> {
    match rfc3339_millis(ts) {
        Some(ms) => utc_text(ms, fmt),
        None => None,
    }
}

/// The timestamp `ts` rewritten in UTC with `fmt`, if it parses and can be
/// written.
pub fn rewrite_timestamp(ts: &str, fmt: &str) -> (r: Option<String>)
    ensures
        match r {
            Some(t) => rewritten(ts@, fmt@) == Some(t@),
            None => rewritten(ts@, fmt@) is None,
        },
{
    match parse_rfc3339_millis(ts) {
        Some(ms) => format_utc_millis(ms, fmt),
        None => None,
    }
}

/// The instant `minutes` minutes after `ms`, written in UTC with `fmt`;
/// empty when it is out of range.
pub open spec fn shifted_text(ms: int, minutes: int, fmt: Seq<char>) -> Seq<char> {
    let t = ms + minutes * MINUTE_MILLIS;
    if fits_i64(minutes * MINUTE_MILLIS) && fits_i64(t) {
        match utc_text(t, fmt) {
            Some(s) => s,
            None => Seq::empty(),
        }
    } else {
        Seq::empty()
    }
}

/// The instant `minutes` minutes after `ms`, written in UTC with `fmt`, or
/// the empty string when it is out of range.
pub fn shifted(ms: i64, minutes: i64, fmt: &str) -> (r: String)
    ensures
        r@ == shifted_text(ms as int, minutes as int, fmt@),
{
    let t = match minutes.checked_mul(MINUTE_MILLIS) {
        Some(d) => ms.checked_add(d),
        None => None,
    };
    match t {
        Some(t) => match format_utc_millis(t, fmt) {
            Some(s) => s,
            None => String::new(),
        },
        None => String::new(),
    }
}

} // verus!
