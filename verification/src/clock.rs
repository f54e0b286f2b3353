//! Reading the system clock, and the local time as text.

use vstd::prelude::*;

verus! {

/// Clock readings are turned into local time only below this many
/// seconds since 1970 (the last day of the year 9999), so that the local
/// year, whatever the time zone, is written with four digits.
pub const CLOCK_LIMIT_SECS: u64 = 253402214400;

/// `c` is an ASCII digit.
pub open spec fn is_digit(c: char) -> bool {
    '0' <= c <= '9'
}

/// `s` has `n` ASCII digits from position `i` on.
pub open spec fn digits_at(s: Seq<char>, i: int, n: int) -> bool {
    &&& 0 <= i
    &&& i + n <= s.len()
    &&& forall|k: int| i <= k < i + n ==> is_digit(#[trigger] s[k])
}

/// The number written by the two digits at position `i`.
pub open spec fn two_digit_value(s: Seq<char>, i: int) -> int {
    (s[i] as int - '0' as int) * 10 + (s[i + 1] as int - '0' as int)
}

/// A time of day as `%H:%M:%S` writes it: two digits each for the hour
/// (up to 23), minute (up to 59) and second (up to 60, a leap second),
/// separated by colons.
pub open spec fn is_clock_text(s: Seq<char>) -> bool {
    &&& s.len() == 8
    &&& digits_at(s, 0, 2) && s[2] == ':' && digits_at(s, 3, 2) && s[5] == ':' && digits_at(s, 6, 2)
    &&& two_digit_value(s, 0) <= 23
    &&& two_digit_value(s, 3) <= 59
    &&& two_digit_value(s, 6) <= 60
}

/// A date and time as `to_rfc3339` writes it for a year from 0 to 9999:
/// `YYYY-MM-DDTHH:MM:SS`, then a fraction of three, six or nine digits
/// unless the nanoseconds are zero, then the offset as `+HH:MM` or
/// `-HH:MM`.
pub open spec fn is_rfc3339_text(s: Seq<char>) -> bool {
    let n = s.len();
    &&& n == 25 || n == 29 || n == 32 || n == 35
    &&& digits_at(s, 0, 4) && s[4] == '-' && digits_at(s, 5, 2) && s[7] == '-' && digits_at(s, 8, 2)
    &&& s[10] == 'T' && digits_at(s, 11, 2) && s[13] == ':' && digits_at(s, 14, 2) && s[16] == ':'
    &&& digits_at(s, 17, 2)
    &&& n > 25 ==> s[19] == '.' && digits_at(s, 20, n - 26)
    &&& s[n - 6] == '+' || s[n - 6] == '-'
    &&& digits_at(s, n - 5, 2) && s[n - 3] == ':' && digits_at(s, n - 2, 2)
}

/// Whole seconds and the nanoseconds past them since 1970 by the system
/// clock; wraps `SystemTime::now().duration_since(UNIX_EPOCH)`, which
/// fails, here giving nothing, when the clock reads before 1970. The
/// nanoseconds are `Duration::subsec_nanos`, under a billion. Which time
/// the clock reads is not stated.
#[verifier::external_body]
fn system_clock() -> (r: Option<(u64, u32)>)
    ensures
        r matches Some(t) ==> t.1 < 1_000_000_000,
{
    match std::time::SystemTime::now().duration_since(std::time::UNIX_EPOCH) {
        Ok(d) => Some((d.as_secs(), d.subsec_nanos())),
        Err(_) => None,
    }
}

/// The local time at `secs` seconds and `nanos` nanoseconds after 1970 as
/// RFC 3339 text; wraps `chrono::DateTime::from_timestamp`, which gives a
/// time for every second in this range, then `with_timezone(&Local)` and
/// `to_rfc3339()`, which writes the year in four digits (it is at most
/// 9999 here, the offset being under a day), the fraction in `AutoSi`
/// form and the offset as `+HH:MM` or `-HH:MM`. Which time the text
/// shows depends on the time zone and is not stated.
#[verifier::external_body]
fn local_rfc3339(secs: i64, nanos: u32) -> (r: Option<String>)
    requires
        0 <= secs < CLOCK_LIMIT_SECS,
        nanos < 1_000_000_000,
    ensures
        r is Some,
        match r {
            Some(t) => is_rfc3339_text(t@),
            None => true,
        },
{
    chrono::DateTime::from_timestamp(secs, nanos).map(|t| t.with_timezone(&chrono::Local).to_rfc3339())
}

/// The local time of day at `secs` seconds and `nanos` nanoseconds after
/// 1970 as `HH:MM:SS`; wraps `chrono::DateTime::from_timestamp`, which
/// gives a time for every second in this range, then
/// `with_timezone(&Local)` and `format("%H:%M:%S")`, whose fields chrono
/// documents as zero-padded two-digit numbers: hour 00 to 23, minute 00
/// to 59, second 00 to 60. Which time the text shows depends on the time
/// zone and is not stated.
#[verifier::external_body]
fn local_hms(secs: i64, nanos: u32) -> (r: Option<String>)
    requires
        0 <= secs < CLOCK_LIMIT_SECS,
        nanos < 1_000_000_000,
    ensures
        r is Some,
        match r {
            Some(t) => is_clock_text(t@),
            None => true,
        },
{
    chrono::DateTime::from_timestamp(secs, nanos).map(
        |t| t.with_timezone(&chrono::Local).format("%H:%M:%S").to_string(),
    )
}

/// Whole seconds since 1970 by the system clock; nothing when the clock
/// reads before 1970 or past what an `i64` holds.
pub fn unix_seconds() -> (r: Option<i64>)
    ensures
        r matches Some(s) ==> s >= 0,
{
    match system_clock() {
        Some((secs, _)) => if secs <= 9223372036854775807u64 {
            Some(secs as i64)
        } else {
            None
        },
        None => None,
    }
}

/// The clock reading in the range that is turned into local time.
fn clock_in_range() -> (r: Option<(i64, u32)>)
    ensures
        r matches Some(t) ==> 0 <= t.0 < CLOCK_LIMIT_SECS && t.1 < 1_000_000_000,
{
    match system_clock() {
        Some((secs, nanos)) => if secs < CLOCK_LIMIT_SECS {
            Some((secs as i64, nanos))
        } else {
            None
        },
        None => None,
    }
}

/// The local time now as RFC 3339 text (see `is_rfc3339_text`); empty
/// text when the clock reads before 1970 or in the last day of the year
/// 9999 or later.
pub fn local_timestamp_now() -> (r: String)
    ensures
        r@.len() == 0 || is_rfc3339_text(r@),
{
    match clock_in_range() {
        Some((secs, nanos)) => match local_rfc3339(secs, nanos) {
            Some(t) => t,
            None => String::new(),
        },
        None => String::new(),
    }
}

/// The local time of day now as `HH:MM:SS` (see `is_clock_text`); empty
/// text when the clock reads before 1970 or in the last day of the year
/// 9999 or later.
pub fn local_clock_now() -> (r: String)
    ensures
        r@.len() == 0 || is_clock_text(r@),
{
    match clock_in_range() {
        Some((secs, nanos)) => match local_hms(secs, nanos) {
            Some(t) => t,
            None => String::new(),
        },
        None => String::new(),
    }
}

} // verus!
