use vstd::prelude::*;

verus! {

/// The instant (seconds from the Unix epoch) that one RFC 3339 timestamp
/// text denotes, or nothing when the text is malformed. Parsing is a pure
/// function of the text, so the result carries a name rather than a
/// definition.
pub uninterp spec fn rfc3339_instant(s: Seq<char>) -> Option<i64>;

/// The fixed display rendering of one instant. The rendering depends on
/// the instant alone, so the result carries a name rather than a
/// definition.
pub uninterp spec fn dt_text(secs: i64) -> Seq<char>;

/// Relies on chrono's DateTime::parse_from_rfc3339 and DateTime::timestamp:
/// parsing either fails or yields the denoted instant as whole seconds from
/// the Unix epoch. chrono's calendar keeps years within about plus or minus
/// 262000 of year zero, so a parsed timestamp stays well inside the stated
/// bound of 10^13 seconds.
#[verifier::external_body]
pub(crate) fn parse_rfc3339_unix(s: &str) -> (r: Option<i64>)
    ensures
        r == rfc3339_instant(s@),
        r is Some ==> -10_000_000_000_000 < r.unwrap() < 10_000_000_000_000,
{
    match chrono::DateTime::parse_from_rfc3339(s) {
        Ok(dt) => Some(dt.timestamp()),
        Err(_) => None,
    }
}

/// Relies on chrono's DateTime::from_timestamp, with_timezone and format:
/// renders the instant at the fixed UTC+3 display offset as hour and
/// minute followed by day, month name and year ("%H:%M %v"). The result
/// depends on the instant alone; an instant outside chrono's calendar
/// range renders as empty text.
#[verifier::external_body]
pub(crate) fn format_display_dt(secs: i64) -> (r: String)
    ensures
        r@ == dt_text(secs),
{
    let offset = match chrono::FixedOffset::east_opt(3 * 60 * 60) {
        Some(offset) => offset,
        None => return String::new(),
    };
    match chrono::DateTime::from_timestamp(secs, 0) {
        Some(dt) => dt.with_timezone(&offset).format("%H:%M %v").to_string(),
        None => String::new(),
    }
}

} // verus!
