//! Wall-clock time and RFC 3339 timestamps (chrono crate).

use vstd::prelude::*;

use crate::text::is_digit;

verus! {

/// An instant as (whole seconds since the Unix epoch, nanoseconds within
/// that second), the pair chrono's `timestamp()` and
/// `timestamp_subsec_nanos()` give. Instants order lexicographically.
pub open spec fn instant_lt(a: (i64, u32), b: (i64, u32)) -> bool {
    a.0 < b.0 || (a.0 == b.0 && a.1 < b.1)
}

/// The instant that `chrono::DateTime::parse_from_rfc3339` reads from
/// `text`, or `None` where it rejects the text.
pub uninterp spec fn rfc3339_instant(text: Seq<char>) -> Option<(i64, u32)>;

/// A reading of the system clock as chrono's `Utc::now()` gives it: not
/// before the Unix epoch (chrono refuses such a clock), and with fewer
/// than 10^9 nanoseconds (the system clock has no leap seconds).
pub open spec fn clock_reading(t: (i64, u32)) -> bool {
    0 <= t.0 && t.1 < 1_000_000_000
}

/// Last second of the year 9999, in seconds since the Unix epoch.
pub const LAST_RFC3339_SECOND: i64 = 253402300799;

/// The instant falls in the years 0000 to 9999, the years RFC 3339 text
/// can hold (4 digits), with fewer than 10^9 nanoseconds.
pub open spec fn in_rfc3339_years(t: (i64, u32)) -> bool {
    -62167219200 <= t.0 <= LAST_RFC3339_SECOND && t.1 < 1_000_000_000
}

/// `text` is what chrono's `to_rfc3339` writes for the instant `t`, as far
/// as parsing can tell: it parses back to `t` when `t` lies in the years
/// 0000 to 9999, and (written with a sign and five or more year digits)
/// does not parse otherwise.
pub open spec fn rfc3339_stamp_of(text: Seq<char>, t: (i64, u32)) -> bool {
    rfc3339_instant(text) == if in_rfc3339_years(t) {
        Some(t)
    } else {
        None
    }
}

/// `text` is the RFC 3339 text of some reading of the system clock.
pub open spec fn is_clock_stamp(text: Seq<char>) -> bool {
    exists|t: (i64, u32)| clock_reading(t) && #[trigger] rfc3339_stamp_of(text, t)
}

/// Calls `chrono::Utc::now().to_rfc3339()`. The time is the machine's.
/// Assumed: the text is the RFC 3339 text of that reading, which
/// `parse_from_rfc3339` reads back to the reading (for years 0000 to 9999;
/// chrono writes later years with a sign and five digits, which it does not
/// parse).
#[verifier::external_body]
pub(crate) fn now_rfc3339() -> (s: String)
    ensures
        is_clock_stamp(s@),
{
    chrono::Utc::now().to_rfc3339()
}

/// Calls `chrono::DateTime::from_timestamp` on the instant and renders it
/// with `to_rfc3339()`. Assumed: for an instant in the years 0000 to 9999
/// the instant is accepted and its text parses back to it.
#[verifier::external_body]
pub(crate) fn rfc3339_of(t: (i64, u32)) -> (r: Option<String>)
    ensures
        in_rfc3339_years(t) ==> r is Some,
        r matches Some(s) ==> (in_rfc3339_years(t) ==> rfc3339_instant(s@) == Some(t)),
{
    match chrono::DateTime::from_timestamp(t.0, t.1) {
        Some(d) => Some(d.to_rfc3339()),
        None => None,
    }
}

/// Calls `chrono::Utc::now()` and returns its instant. The time is the
/// machine's; assumed only what chrono's `Utc::now` guarantees of every
/// reading: not before the epoch, no leap-second nanoseconds.
#[verifier::external_body]
pub(crate) fn now_instant() -> (t: (i64, u32))
    ensures
        clock_reading(t),
{
    let now = chrono::Utc::now();
    (now.timestamp(), now.timestamp_subsec_nanos())
}

/// Calls `chrono::Utc::now().timestamp_nanos_opt()`. The time is the
/// machine's; nothing is assumed of it.
#[verifier::external_body]
pub(crate) fn now_timestamp_nanos() -> (t: Option<i64>) {
    chrono::Utc::now().timestamp_nanos_opt()
}

/// Calls `chrono::DateTime::parse_from_rfc3339` on `text` and returns the
/// parsed instant. Assumed: the result depends on the text alone.
#[verifier::external_body]
pub(crate) fn parse_rfc3339(text: &str) -> (r: Option<(i64, u32)>)
    ensures
        r == rfc3339_instant(text@),
{
    match chrono::DateTime::parse_from_rfc3339(text) {
        Ok(d) => Some((d.timestamp(), d.timestamp_subsec_nanos())),
        Err(_) => None,
    }
}

/// `s` has the shape of local time rendered with `%Y-%m-%d %H:%M:%S`:
/// `YYYY-MM-DD HH:MM:SS`, nineteen characters, for the years 0000 to 9999;
/// other years are written with a sign and at least four digits.
pub open spec fn local_display_shape(s: Seq<char>) -> bool {
    let n = s.len();
    &&& n >= 19
    &&& forall|i: int|
        #![trigger s[i]]
        n - 15 <= i < n ==> (if i == n - 15 || i == n - 12 {
            s[i] == '-'
        } else if i == n - 9 {
            s[i] == ' '
        } else if i == n - 6 || i == n - 3 {
            s[i] == ':'
        } else {
            is_digit(s[i])
        })
    &&& (n == 19 && forall|i: int| 0 <= i < 4 ==> is_digit(#[trigger] s[i]))
        || (n >= 20 && (s[0] == '+' || s[0] == '-') && forall|i: int|
        1 <= i < n - 15 ==> is_digit(#[trigger] s[i]))
}

/// Calls `chrono::Local::now()` and renders it with the format
/// `%Y-%m-%d %H:%M:%S`. The time and the time zone are the machine's;
/// assumed only the shape of the text, as chrono's formatting of each
/// field writes it.
#[verifier::external_body]
pub(crate) fn now_local_display() -> (s: String)
    ensures
        local_display_shape(s@),
{
    chrono::Local::now().format("%Y-%m-%d %H:%M:%S").to_string()
}

} // verus!
