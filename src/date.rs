//! Calendar dates as the reports write them: read through `chrono`, written
//! back as `DD/MM/YYYY`.

use vstd::prelude::*;
use chrono::{Datelike, NaiveDate};
use crate::text::{all_digits, chars_of, decimal, push_decimal, string_of};

verus! {

/// Day, month and four-digit year, separated by slashes.
pub const LONG_YEAR_FORMAT: &'static str = "%d/%m/%Y";

/// Day, month and two-digit year, separated by slashes.
pub const SHORT_YEAR_FORMAT: &'static str = "%d/%m/%y";

/// `chrono::ParseError`, the reason a date did not read, held opaque.
#[verifier::external_type_specification]
#[verifier::external_body]
pub struct ExParseError(chrono::ParseError);

/// A calendar date.
#[derive(Clone, Copy, Debug, PartialEq, Eq, Structural)]
pub struct Date {
    pub year: i32,
    pub month: u32,
    pub day: u32,
}

impl Date {
    /// 1 January 1970, the date of a record that carries no date.
    pub fn unix_epoch() -> (r: Date)
        ensures
            r == (Date { year: 1970, month: 1, day: 1 }),
    {
        Date { year: 1970, month: 1, day: 1 }
    }
}

/// The date, as year, month and day, that `chrono` reads from `s` in the
/// format `fmt`; `None` where it rejects the text.
pub uninterp spec fn naive_date_of(s: Seq<char>, fmt: Seq<char>) -> Option<(int, int, int)>;

/// Relies on `chrono::NaiveDate::parse_from_str` for the date that `s`
/// denotes in the format `fmt`, and on `Datelike::month` (1 to 12) and
/// `Datelike::day` (1 to 31) for its parts.
#[verifier::external_body]
fn parse_with_format(s: &str, fmt: &str) -> (r: Result<Date, chrono::ParseError>)
    ensures
        match r {
            Ok(d) => {
                &&& naive_date_of(s@, fmt@) == Some((d.year as int, d.month as int, d.day as int))
                &&& 1 <= d.month <= 12
                &&& 1 <= d.day <= 31
            },
            Err(_) => naive_date_of(s@, fmt@) is None,
        },
{
    NaiveDate::parse_from_str(s, fmt).map(|d| Date { year: d.year(), month: d.month(), day: d.day() })
}

pub open spec fn date_from_parts(t: (int, int, int)) -> Date {
    Date { year: t.0 as i32, month: t.1 as u32, day: t.2 as u32 }
}

/// `s` ends with a slash and a year of four digits.
pub open spec fn ends_with_long_year(s: Seq<char>) -> bool {
    &&& s.len() >= 5
    &&& s[s.len() - 5] == '/'
    &&& all_digits(s.subrange(s.len() - 4, s.len() as int))
}

pub open spec fn short_year_date_of(s: Seq<char>) -> Option<Date> {
    match naive_date_of(s, SHORT_YEAR_FORMAT@) {
        Some(t) => Some(date_from_parts(t)),
        None => None,
    }
}

/// The date that `s` denotes: day, month and four-digit year if that reads,
/// else day, month and two-digit year.
pub open spec fn date_of(s: Seq<char>) -> Option<Date> {
    if ends_with_long_year(s) {
        match naive_date_of(s, LONG_YEAR_FORMAT@) {
            Some(t) => Some(date_from_parts(t)),
            None => short_year_date_of(s),
        }
    } else {
        short_year_date_of(s)
    }
}

fn has_long_year(s: &str) -> (r: bool)
    ensures
        r == ends_with_long_year(s@),
{
    let cs = chars_of(s);
    let n = cs.len();
    if n < 5 || cs[n - 5] != '/' {
        return false;
    }
    let mut k: usize = n - 4;
    while k < n
        invariant
            cs@ == s@,
            n == cs.len(),
            5 <= n,
            n - 4 <= k <= n,
            all_digits(s@.subrange(n - 4, k as int)),
        decreases n - k,
    {
        if !('0' <= cs[k] && cs[k] <= '9') {
            assert(s@.subrange(n - 4, n as int)[k - (n - 4)] == cs[k as int]);
            return false;
        }
        assert(s@.subrange(n - 4, k + 1) == s@.subrange(n - 4, k as int).push(cs[k as int]));
        k = k + 1;
    }
    true
}

/// A text that reads as a date in neither accepted format.
#[derive(Debug)]
pub struct DateError {
    pub text: String,
}

/// Reads a date written `DD/MM/YYYY`, or failing that `DD/MM/YY`.
pub fn parse_date(date_str: &str) -> (r: Result<Date, DateError>)
    ensures
        match r {
            Ok(d) => date_of(date_str@) == Some(d) && 1 <= d.month <= 12 && 1 <= d.day <= 31,
            Err(e) => date_of(date_str@) is None && e.text@ == date_str@,
        },
{
    if has_long_year(date_str) {
        if let Ok(d) = parse_with_format(date_str, LONG_YEAR_FORMAT) {
            return Ok(d);
        }
    }
    match parse_with_format(date_str, SHORT_YEAR_FORMAT) {
        Ok(d) => Ok(d),
        Err(_) => Err(DateError { text: date_str.to_owned() }),
    }
}

/// `s` with zeros in front up to `width` characters.
pub open spec fn pad_to(s: Seq<char>, width: nat) -> Seq<char> {
    if s.len() < width {
        Seq::new((width - s.len()) as nat, |i: int| '0') + s
    } else {
        s
    }
}

/// A year as `%Y` writes it: four digits at least, with a sign outside the
/// years 0 to 9999.
pub open spec fn year_text(y: int) -> Seq<char> {
    if 0 <= y <= 9999 {
        pad_to(decimal(y as nat), 4)
    } else if y > 9999 {
        seq!['+'] + pad_to(decimal(y as nat), 4)
    } else {
        seq!['-'] + pad_to(decimal((-y) as nat), 4)
    }
}

/// A date written `DD/MM/YYYY`.
pub open spec fn date_text(d: Date) -> Seq<char> {
    pad_to(decimal(d.day as nat), 2) + seq!['/'] + pad_to(decimal(d.month as nat), 2) + seq!['/']
        + year_text(d.year as int)
}

fn push_padded(n: u64, width: usize, out: &mut Vec<char>)
    ensures
        final(out)@ == old(out)@ + pad_to(decimal(n as nat), width as nat),
{
    let mut digits: Vec<char> = Vec::new();
    push_decimal(n, &mut digits);
    assert(digits@ == decimal(n as nat));
    let ghost start = out@;
    let mut k: usize = digits.len();
    while k < width
        invariant
            digits@ == decimal(n as nat),
            digits.len() <= k,
            k <= width || k == digits.len(),
            out@ == start + Seq::new((k - digits.len()) as nat, |i: int| '0'),
        decreases width - k,
    {
        out.push('0');
        k = k + 1;
        assert(out@ == start + Seq::new((k - digits.len()) as nat, |i: int| '0'));
    }
    let ghost zeros = out@;
    let mut j: usize = 0;
    while j < digits.len()
        invariant
            out@ == zeros + digits@.take(j as int),
            j <= digits.len(),
        decreases digits.len() - j,
    {
        out.push(digits[j]);
        j = j + 1;
        assert(out@ == zeros + digits@.take(j as int));
    }
    assert(digits@.take(j as int) == digits@);
    if digits.len() < width {
        assert(zeros == start + Seq::new((width - digits.len()) as nat, |i: int| '0'));
        assert(out@ == start + (Seq::new((width - digits.len()) as nat, |i: int| '0') + digits@));
    } else {
        assert(zeros == start);
    }
}

/// Writes `d` as `DD/MM/YYYY`.
pub fn format_date(d: &Date) -> (r: String)
    ensures
        r@ == date_text(*d),
{
    let mut out: Vec<char> = Vec::new();
    push_padded(d.day as u64, 2, &mut out);
    out.push('/');
    push_padded(d.month as u64, 2, &mut out);
    out.push('/');
    let y = d.year;
    if 0 <= y && y <= 9999 {
        push_padded(y as u64, 4, &mut out);
    } else if y > 9999 {
        out.push('+');
        push_padded(y as u64, 4, &mut out);
    } else {
        out.push('-');
        let a: i64 = -(y as i64);
        push_padded(a as u64, 4, &mut out);
    }
    assert(out@ == date_text(*d));
    string_of(out.as_slice())
}

} // verus!
