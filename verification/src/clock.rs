//! Wall-clock access and timestamp rendering.
//!
//! Time is an outside input: every function of the core that depends on it
//! takes the current instant as an argument, and only the thin entry points
//! here read the clock.

use vstd::prelude::*;

verus! {

/// The text that `format_timestamp` renders for a given Unix timestamp:
/// a pure function of the timestamp alone.
pub uninterp spec fn timestamp_text(t: i64) -> Seq<char>;

/// Relies on `chrono::Utc::now`: seconds of the current wall-clock time since
/// the Unix epoch. The value depends on the clock, so nothing is promised of
/// it.
#[verifier::external_body]
pub(crate) fn now_unix() -> i64 {
    chrono::Utc::now().timestamp()
}

/// Relies on `chrono::DateTime::from_timestamp` and its `%Y-%m-%d %H:%M:%S`
/// formatting: the rendered text is a pure function of the timestamp.
/// A timestamp that chrono cannot represent renders as empty text.
#[verifier::external_body]
pub(crate) fn format_timestamp(t: i64) -> (r: String)
    ensures
        r@ == timestamp_text(t),
{
    match chrono::DateTime::from_timestamp(t, 0) {
        Some(d) => d.format("%Y-%m-%d %H:%M:%S").to_string(),
        None => String::new(),
    }
}

} // verus!
