//! The current time, from the system clock.

use vstd::prelude::*;

verus! {

/// Whether `s` is all ASCII digits.
pub open spec fn all_digits(s: Seq<char>) -> bool {
    forall|i: int| 0 <= i < s.len() ==> '0' <= #[trigger] s[i] <= '9'
}

/// The value of the two digits of `s` at `i`, when they are digits.
pub open spec fn two_digit_field(s: Seq<char>, i: int, lo: int, hi: int) -> bool {
    &&& '0' <= s[i] <= '9'
    &&& '0' <= s[i + 1] <= '9'
    &&& lo <= (s[i] as int - 48) * 10 + (s[i + 1] as int - 48) <= hi
}

/// A year as chrono writes it in RFC 3339: four digits, or for a year past
/// 9999 a `+` and at least five digits.
pub open spec fn rfc3339_year(y: Seq<char>) -> bool {
    ||| (y.len() == 4 && all_digits(y))
    ||| (y.len() >= 6 && y[0] == '+' && all_digits(y.drop_first()))
}

/// The part of a UTC timestamp after the year: `-MM-DDThh:mm:ss`, then no
/// fraction or a `.` and 3, 6 or 9 digits, then `+00:00`.
pub open spec fn rfc3339_utc_rest(r: Seq<char>) -> bool {
    let n = r.len() as int;
    let frac = r.subrange(15, n - 6);
    &&& n == 21 || n == 25 || n == 28 || n == 31
    &&& r[0] == '-'
    &&& two_digit_field(r, 1, 1, 12)
    &&& r[3] == '-'
    &&& two_digit_field(r, 4, 1, 31)
    &&& r[6] == 'T'
    &&& two_digit_field(r, 7, 0, 23)
    &&& r[9] == ':'
    &&& two_digit_field(r, 10, 0, 59)
    &&& r[12] == ':'
    &&& two_digit_field(r, 13, 0, 60)
    &&& (frac.len() == 0 || (frac[0] == '.' && all_digits(frac.drop_first())))
    &&& r.subrange(n - 6, n) == "+00:00"@
}

/// Whether `t` is an RFC 3339 timestamp in UTC as chrono writes it, such
/// as `2026-05-29T10:30:00.123+00:00`.
pub open spec fn is_rfc3339_utc(t: Seq<char>) -> bool {
    exists|k: int| 0 <= k <= t.len() && rfc3339_year(#[trigger] t.take(k)) && rfc3339_utc_rest(
        t.skip(k),
    )
}

/// `chrono::Utc::now().to_rfc3339()`: the current UTC time as RFC 3339
/// text. Which time it is depends on the clock and is not stated; the
/// contract claims only the form that chrono's `write_rfc3339` gives it
/// (`AutoSi` seconds, a `+00:00` offset). (`Utc::now` panics if the system
/// clock is set before 1970.)
#[verifier::external_body]
pub(crate) fn now_rfc3339() -> (r: String)
    ensures
        is_rfc3339_utc(r@),
{
    chrono::Utc::now().to_rfc3339()
}

/// `chrono::Utc::now().timestamp()`: the current time in seconds since the
/// Unix epoch. Which second it is depends on the clock and is not stated;
/// the contract claims only that it is not negative: `Utc::now` takes the
/// time since the epoch as an unsigned duration and panics (it does not
/// return) when the system clock reads before 1970.
#[verifier::external_body]
pub(crate) fn now_unix_seconds() -> (r: i64)
    ensures
        r >= 0,
{
    chrono::Utc::now().timestamp()
}

} // verus!
