use vstd::prelude::*;

verus! {

/// An ASCII decimal digit.
pub open spec fn is_digit(c: char) -> bool {
    '0' <= c && c <= '9'
}

/// Every character of `s` is a decimal digit.
pub open spec fn all_digits(s: Seq<char>) -> bool {
    forall|i: int| 0 <= i < s.len() ==> is_digit(#[trigger] s[i])
}

/// `s` is two decimal digits whose value lies between `lo` and `hi`.
pub open spec fn two_digits_within(s: Seq<char>, lo: int, hi: int) -> bool {
    &&& s.len() == 2
    &&& all_digits(s)
    &&& lo <= 10 * (s[0] as int - '0' as int) + (s[1] as int - '0' as int) <= hi
}

/// The year as RFC 3339 writes it: four digits, or, beyond year 9999, a
/// `+` sign and five or more digits.
pub open spec fn is_rfc3339_year(y: Seq<char>) -> bool {
    ||| y.len() == 4 && all_digits(y)
    ||| y.len() >= 6 && y[0] == '+' && all_digits(y.drop_first())
}

/// The fraction of a second: nothing, or a `.` and 3, 6 or 9 digits.
pub open spec fn is_rfc3339_fraction(f: Seq<char>) -> bool {
    ||| f.len() == 0
    ||| (f.len() == 4 || f.len() == 7 || f.len() == 10) && f[0] == '.' && all_digits(
        f.drop_first(),
    )
}

/// `s` is an RFC 3339 date and time in UTC:
/// `YYYY-MM-DDTHH:MM:SS`, an optional fraction of a second, then `+00:00`.
pub open spec fn is_utc_rfc3339(s: Seq<char>) -> bool {
    exists|
        year: Seq<char>,
        month: Seq<char>,
        day: Seq<char>,
        hour: Seq<char>,
        minute: Seq<char>,
        second: Seq<char>,
        fraction: Seq<char>,
    |
        {
            &&& is_rfc3339_year(year)
            &&& two_digits_within(month, 1, 12)
            &&& two_digits_within(day, 1, 31)
            &&& two_digits_within(hour, 0, 23)
            &&& two_digits_within(minute, 0, 59)
            &&& two_digits_within(second, 0, 59)
            &&& is_rfc3339_fraction(fraction)
            &&& s == year + "-"@ + month + "-"@ + day + "T"@ + hour + ":"@ + minute + ":"@ + second
                + fraction + "+00:00"@
        }
}

/// Calls `chrono::Utc::now` and writes the time it returns with
/// `DateTime::to_rfc3339` (the time's own type cannot stand in a verified
/// signature). Which time the clock gives is not claimed. The text is the
/// crate's RFC 3339 form: the year (four digits up to 9999, else signed),
/// month, day, `T`, hours, minutes and seconds of a valid time (the clock's
/// time has no leap second), the fraction of a second trimmed to 3, 6 or 9
/// digits or left out when zero, and the UTC offset `+00:00`. `Utc::now`
/// panics when the system clock reads a time before 1970, which no argument
/// controls.
#[verifier::external_body]
fn utc_now_rfc3339() -> (s: String)
    ensures
        is_utc_rfc3339(s@),
{
    chrono::Utc::now().to_rfc3339()
}

/// `s` was read from the system clock by [`now_rfc3339`]. Outside this
/// module the predicate is abstract: only [`now_rfc3339`] establishes it,
/// so a text made up elsewhere (a fixed date, a stale value passed along)
/// cannot be shown to be one; [`lemma_clock_reading_form`] gives its form.
pub closed spec fn is_clock_reading(s: Seq<char>) -> bool {
    is_utc_rfc3339(s)
}

/// Every clock reading is an RFC 3339 date and time in UTC.
pub proof fn lemma_clock_reading_form(s: Seq<char>)
    requires
        is_clock_reading(s),
    ensures
        is_utc_rfc3339(s),
{
}

/// The current time in RFC 3339 form, in UTC.
pub fn now_rfc3339() -> (s: String)
    ensures
        is_utc_rfc3339(s@),
        is_clock_reading(s@),
{
    utc_now_rfc3339()
}

} // verus!
