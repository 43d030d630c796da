//! Release dates as they are shown in notifications.

use crate::text::{decimal, digit_char, digit_to_char, from_chars, push_decimal, push_str};
use vstd::prelude::*;

verus! {

/// A moment of the calendar in UTC, to the minute.
#[derive(Debug, Clone, PartialEq, Eq)]
pub struct UtcMoment {
    pub year: i32,
    pub month: u32,
    pub day: u32,
    pub hour: u32,
    pub minute: u32,
}

impl UtcMoment {
    /// The month, the day, the hour and the minute are in their ranges.
    pub open spec fn valid(&self) -> bool {
        &&& 1 <= self.month <= 12
        &&& 1 <= self.day <= 31
        &&& self.hour < 24
        &&& self.minute < 60
    }
}

/// The moment that an RFC 3339 timestamp denotes, moved to UTC; nothing where
/// the text is no such timestamp.
pub uninterp spec fn rfc3339_moment(text: Seq<char>) -> Option<UtcMoment>;

/// `chrono::DateTime::parse_from_rfc3339`, followed by `with_timezone(&Utc)`
/// and the calendar getters of `Datelike` and `Timelike`. The contract names
/// the outcome after the text alone, and claims of a parsed moment only the
/// ranges that chrono documents for `month`, `day`, `hour` and `minute`.
#[verifier::external_body]
fn parse_rfc3339(text: &str) -> (r: Option<UtcMoment>)
    ensures
        r == rfc3339_moment(text@),
        r matches Some(m) ==> m.valid(),
{
    match chrono::DateTime::parse_from_rfc3339(text) {
        Ok(at) => {
            let utc = at.with_timezone(&chrono::Utc);
            Some(
                UtcMoment {
                    year: chrono::Datelike::year(&utc),
                    month: chrono::Datelike::month(&utc),
                    day: chrono::Datelike::day(&utc),
                    hour: chrono::Timelike::hour(&utc),
                    minute: chrono::Timelike::minute(&utc),
                },
            )
        },
        Err(_) => None,
    }
}

/// The English ordinal suffix of a day number, as characters.
pub open spec fn ordinal_suffix(day: nat) -> Seq<char> {
    if 11 <= day % 100 <= 13 {
        seq!['t', 'h']
    } else if day % 10 == 1 {
        seq!['s', 't']
    } else if day % 10 == 2 {
        seq!['n', 'd']
    } else if day % 10 == 3 {
        seq!['r', 'd']
    } else {
        seq!['t', 'h']
    }
}

/// The suffix that turns a day number into an ordinal: "st", "nd", "rd" or "th".
pub fn get_ordinal_suffix(day: u32) -> (suffix: &'static str)
    ensures
        suffix@ == ordinal_suffix(day as nat),
{
    proof {
        reveal_strlit("th");
        reveal_strlit("st");
        reveal_strlit("nd");
        reveal_strlit("rd");
    }
    let r: u32 = day % 100;
    if 11 <= r && r <= 13 {
        assert("th"@ =~= seq!['t', 'h']);
        return "th";
    }
    let d: u32 = day % 10;
    if d == 1 {
        assert("st"@ =~= seq!['s', 't']);
        "st"
    } else if d == 2 {
        assert("nd"@ =~= seq!['n', 'd']);
        "nd"
    } else if d == 3 {
        assert("rd"@ =~= seq!['r', 'd']);
        "rd"
    } else {
        assert("th"@ =~= seq!['t', 'h']);
        "th"
    }
}

/// The English name of a month, from 1 for January to 12 for December.
pub open spec fn month_name(month: nat) -> Seq<char> {
    if month == 1 {
        "January"@
    } else if month == 2 {
        "February"@
    } else if month == 3 {
        "March"@
    } else if month == 4 {
        "April"@
    } else if month == 5 {
        "May"@
    } else if month == 6 {
        "June"@
    } else if month == 7 {
        "July"@
    } else if month == 8 {
        "August"@
    } else if month == 9 {
        "September"@
    } else if month == 10 {
        "October"@
    } else if month == 11 {
        "November"@
    } else {
        "December"@
    }
}

/// The English name of a month, from 1 for January to 12 for December.
pub fn get_month_name(month: u32) -> (name: &'static str)
    requires
        1 <= month <= 12,
    ensures
        name@ == month_name(month as nat),
{
    if month == 1 {
        "January"
    } else if month == 2 {
        "February"
    } else if month == 3 {
        "March"
    } else if month == 4 {
        "April"
    } else if month == 5 {
        "May"
    } else if month == 6 {
        "June"
    } else if month == 7 {
        "July"
    } else if month == 8 {
        "August"
    } else if month == 9 {
        "September"
    } else if month == 10 {
        "October"
    } else if month == 11 {
        "November"
    } else {
        "December"
    }
}

/// A number below one hundred in two digits.
pub open spec fn two_digits(n: nat) -> Seq<char> {
    seq![digit_char(n / 10), digit_char(n % 10)]
}

/// A number below ten thousand in four digits.
pub open spec fn four_digits(n: nat) -> Seq<char> {
    seq![
        digit_char(n / 1000),
        digit_char((n / 100) % 10),
        digit_char((n / 10) % 10),
        digit_char(n % 10),
    ]
}

/// A year as it is written: four digits from 0 to 9999, a plus sign before
/// a later year, a minus sign and at least four digits for a year before 0.
pub open spec fn year_text(year: int) -> Seq<char> {
    if 0 <= year <= 9999 {
        four_digits(year as nat)
    } else if year > 9999 {
        seq!['+'] + decimal(year as nat)
    } else if year > -10000 {
        seq!['-'] + four_digits((-year) as nat)
    } else {
        seq!['-'] + decimal((-year) as nat)
    }
}

/// A moment as a notification shows it: the day with its ordinal suffix, the
/// month's name, the year, and the time of day in UTC.
pub open spec fn formatted_moment(m: UtcMoment) -> Seq<char> {
    decimal(m.day as nat) + ordinal_suffix(m.day as nat) + " "@ + month_name(m.month as nat) + " "@
        + year_text(m.year as int) + " at "@ + two_digits(m.hour as nat) + ":"@ + two_digits(
        m.minute as nat,
    ) + " UTC"@
}

/// A release date as a notification shows it: the formatted moment where the
/// text is an RFC 3339 timestamp, the text itself where it is not.
pub open spec fn formatted_date(text: Seq<char>) -> Seq<char> {
    match rfc3339_moment(text) {
        Some(m) => formatted_moment(m),
        None => text,
    }
}

fn push_two_digits(out: &mut Vec<char>, n: u32)
    requires
        n < 100,
    ensures
        final(out)@ == old(out)@ + two_digits(n as nat),
{
    out.push(digit_to_char((n / 10) as u64));
    out.push(digit_to_char((n % 10) as u64));
    assert(out@ =~= old(out)@ + two_digits(n as nat));
}

fn push_four_digits(out: &mut Vec<char>, n: u32)
    requires
        n < 10000,
    ensures
        final(out)@ == old(out)@ + four_digits(n as nat),
{
    out.push(digit_to_char((n / 1000) as u64));
    out.push(digit_to_char(((n / 100) % 10) as u64));
    out.push(digit_to_char(((n / 10) % 10) as u64));
    out.push(digit_to_char((n % 10) as u64));
    assert(out@ =~= old(out)@ + four_digits(n as nat));
}

fn push_year(out: &mut Vec<char>, year: i32)
    ensures
        final(out)@ == old(out)@ + year_text(year as int),
{
    if 0 <= year && year <= 9999 {
        push_four_digits(out, year as u32);
    } else if year > 9999 {
        out.push('+');
        push_decimal(out, year as u64);
        assert(out@ =~= old(out)@ + year_text(year as int));
    } else if year > -10000 {
        out.push('-');
        push_four_digits(out, (-year) as u32);
        assert(out@ =~= old(out)@ + year_text(year as int));
    } else {
        out.push('-');
        let magnitude: u64 = (-(year as i64)) as u64;
        push_decimal(out, magnitude);
        assert(out@ =~= old(out)@ + year_text(year as int));
    }
}

/// Writes a moment as a notification shows it, such as
/// "1st November 2024 at 14:42 UTC".
pub fn format_moment(m: &UtcMoment) -> (shown: String)
    requires
        m.valid(),
    ensures
        shown@ == formatted_moment(*m),
{
    let mut out: Vec<char> = Vec::new();
    push_decimal(&mut out, m.day as u64);
    push_str(&mut out, get_ordinal_suffix(m.day));
    push_str(&mut out, " ");
    push_str(&mut out, get_month_name(m.month));
    push_str(&mut out, " ");
    push_year(&mut out, m.year);
    push_str(&mut out, " at ");
    push_two_digits(&mut out, m.hour);
    push_str(&mut out, ":");
    push_two_digits(&mut out, m.minute);
    push_str(&mut out, " UTC");
    assert(out@ =~= formatted_moment(*m));
    from_chars(&out)
}

/// Formats a release date for a notification. A text that is no RFC 3339
/// timestamp comes back unchanged.
pub fn format_date(date_str: &str) -> (shown: String)
    ensures
        shown@ == formatted_date(date_str@),
{
    match parse_rfc3339(date_str) {
        Some(m) => format_moment(&m),
        None => String::from_str(date_str),
    }
}

} // verus!
