//! Calendar times and the two canonical date strings built from them.

use chrono::{Datelike, Timelike};
use vstd::prelude::*;

verus! {

/// A calendar date and wall-clock time, as read from metadata or from a file's timestamp.
#[derive(Clone, Copy, Debug, PartialEq, Eq, Structural)]
pub struct CalendarTime {
    pub year: i32,
    pub month: u8,
    pub day: u8,
    pub hour: u8,
    pub minute: u8,
    pub second: u8,
}

impl View for CalendarTime {
    type V = (int, int, int, int, int, int);

    open spec fn view(&self) -> (int, int, int, int, int, int) {
        (
            self.year as int,
            self.month as int,
            self.day as int,
            self.hour as int,
            self.minute as int,
            self.second as int,
        )
    }
}

/// Leap years of the proleptic Gregorian calendar.
pub open spec fn is_leap_year(y: int) -> bool {
    y % 4 == 0 && (y % 100 != 0 || y % 400 == 0)
}

pub open spec fn days_in_month(y: int, m: int) -> int {
    if m == 2 {
        if is_leap_year(y) { 29 } else { 28 }
    } else if m == 4 || m == 6 || m == 9 || m == 11 {
        30
    } else {
        31
    }
}

/// The fields of a valid date and time of day (no leap second).
pub open spec fn valid_parts(t: (int, int, int, int, int, int)) -> bool {
    &&& 1 <= t.1 <= 12
    &&& 1 <= t.2 <= days_in_month(t.0, t.1)
    &&& 0 <= t.3 < 24
    &&& 0 <= t.4 < 60
    &&& 0 <= t.5 < 60
}

impl CalendarTime {
    pub open spec fn wf(&self) -> bool {
        valid_parts(self@)
    }
}

pub open spec fn digit_char(d: int) -> char {
    if d == 0 {
        '0'
    } else if d == 1 {
        '1'
    } else if d == 2 {
        '2'
    } else if d == 3 {
        '3'
    } else if d == 4 {
        '4'
    } else if d == 5 {
        '5'
    } else if d == 6 {
        '6'
    } else if d == 7 {
        '7'
    } else if d == 8 {
        '8'
    } else {
        '9'
    }
}

/// The decimal digits of `n`, without leading zeros.
pub open spec fn decimal(n: nat) -> Seq<char>
    decreases n,
{
    if n < 10 {
        seq![digit_char(n as int)]
    } else {
        decimal(n / 10).push(digit_char((n % 10) as int))
    }
}

/// The last `w` decimal digits of `n`, zero-padded on the left.
pub open spec fn fixed_digits(n: nat, w: nat) -> Seq<char>
    decreases w,
{
    if w == 0 {
        Seq::empty()
    } else {
        fixed_digits(n / 10, (w - 1) as nat).push(digit_char((n % 10) as int))
    }
}

/// A year as a path segment: four digits for years 0 to 9999, otherwise a sign
/// followed by at least four digits.
pub open spec fn year_text(y: int) -> Seq<char> {
    if 0 <= y < 10000 {
        fixed_digits(y as nat, 4)
    } else if y >= 10000 {
        seq!['+'] + decimal(y as nat)
    } else if y > -10000 {
        seq!['-'] + fixed_digits((-y) as nat, 4)
    } else {
        seq!['-'] + decimal((-y) as nat)
    }
}

pub open spec fn two_digits(n: int) -> Seq<char> {
    fixed_digits(n as nat, 2)
}

/// `year/year-month-day`: the form of a date read from capture metadata.
pub open spec fn nested_form(t: (int, int, int, int, int, int)) -> Seq<char> {
    year_text(t.0) + seq!['/'] + year_text(t.0) + seq!['-'] + two_digits(t.1) + seq!['-']
        + two_digits(t.2)
}

/// `year-month-day_hour-minute-second`: the form of a date read from a file's timestamp.
pub open spec fn flat_form(t: (int, int, int, int, int, int)) -> Seq<char> {
    year_text(t.0) + seq!['-'] + two_digits(t.1) + seq!['-'] + two_digits(t.2) + seq!['_']
        + two_digits(t.3) + seq!['-'] + two_digits(t.4) + seq!['-'] + two_digits(t.5)
}


/// The number written by the `w` digits of `s` that start at index `i`.
pub open spec fn number_at(s: Seq<char>, i: int, w: nat) -> int
    decreases w,
{
    if w == 0 {
        0
    } else {
        number_at(s, i, (w - 1) as nat) * 10 + (s[i + w - 1] as int - '0' as int)
    }
}

/// The fields written in a text of the shape `YYYY:MM:DD HH:MM:SS`.
pub open spec fn stamp_fields(s: Seq<char>) -> (int, int, int, int, int, int) {
    (
        number_at(s, 0, 4),
        number_at(s, 5, 2),
        number_at(s, 8, 2),
        number_at(s, 11, 2),
        number_at(s, 14, 2),
        number_at(s, 17, 2),
    )
}

/// A capture timestamp exactly as camera firmware writes it, `YYYY:MM:DD HH:MM:SS`,
/// naming a valid date and time.
pub open spec fn well_formed_stamp(s: Seq<char>) -> bool {
    &&& s.len() == 19
    &&& forall|i: int|
        0 <= i < 19 && i != 4 && i != 7 && i != 10 && i != 13 && i != 16 ==> is_digit(
            #[trigger] s[i],
        )
    &&& s[4] == ':' && s[7] == ':' && s[10] == ' ' && s[13] == ':' && s[16] == ':'
    &&& valid_parts(stamp_fields(s))
}

/// The fields of an optional calendar time.
pub open spec fn parts_of(r: Option<CalendarTime>) -> Option<(int, int, int, int, int, int)> {
    match r {
        Some(t) => Some(t@),
        None => None,
    }
}

/// The chrono format of a capture timestamp: `%Y:%m:%d %H:%M:%S`.
pub open spec fn stamp_format() -> Seq<char> {
    seq!['%', 'Y', ':', '%', 'm', ':', '%', 'd', ' ', '%', 'H', ':', '%', 'M', ':', '%', 'S']
}

/// The date and time fields that chrono reads from `text` with the format `fmt`,
/// or `None` where the text does not match it.
pub uninterp spec fn parsed_date_time_of(text: Seq<char>, fmt: Seq<char>) -> Option<
    (int, int, int, int, int, int),
>;

/// Relies on chrono's `NaiveDateTime::parse_from_str` and on the calendar fields of the value it
/// returns: they name a valid date and time (seconds below 60), and a text that the format
/// `%Y:%m:%d %H:%M:%S` writes for a valid date and time is read back field by field.
#[verifier::external_body]
fn parse_date_time(text: &str, fmt: &str) -> (r: Option<CalendarTime>)
    ensures
        parts_of(r) == parsed_date_time_of(text@, fmt@),
        r matches Some(t) ==> t.wf(),
        fmt@ == stamp_format() && well_formed_stamp(text@) ==> parts_of(r) == Some(stamp_fields(text@)),
{
    match chrono::NaiveDateTime::parse_from_str(text, fmt) {
        Ok(v) => Some(CalendarTime {
            year: v.year(),
            month: v.month() as u8,
            day: v.day() as u8,
            hour: v.hour() as u8,
            minute: v.minute() as u8,
            second: v.second() as u8,
        }),
        Err(_) => None,
    }
}

/// The date and time that a capture timestamp text names, read with the format `%Y:%m:%d %H:%M:%S`.
pub fn parse_capture_stamp(text: &str) -> (r: Option<CalendarTime>)
    ensures
        parts_of(r) == parsed_date_time_of(text@, stamp_format()),
        r matches Some(t) ==> t.wf(),
        well_formed_stamp(text@) ==> parts_of(r) == Some(stamp_fields(text@)),
{
    let fmt = "%Y:%m:%d %H:%M:%S";
    proof {
        reveal_strlit("%Y:%m:%d %H:%M:%S");
        assert(fmt@ =~= stamp_format());
    }
    parse_date_time(text, fmt)
}

/// An instant that chrono places on its calendar: nanoseconds within the second, and
/// seconds from the Unix epoch within about 253,000 years, well inside chrono's range of
/// dates.
pub open spec fn instant_in_range(secs: int, nanos: int) -> bool {
    -8_000_000_000_000 <= secs <= 8_000_000_000_000 && 0 <= nanos < 1_000_000_000
}

/// Relies on chrono's `DateTime::from_timestamp`, which is `Some` for every instant whose
/// day number and time of day are in range (all instants of `instant_in_range` are), and on
/// `DateTime::with_timezone(&Local)`: the calendar fields of the instant in the machine's
/// time zone, which name a valid date and time (seconds below 60). What they are depends on
/// the time zone, so nothing more is stated. chrono falls back to UTC where no time zone can
/// be loaded.
#[verifier::external_body]
pub(crate) fn local_date_time(secs: i64, nanos: u32) -> (r: Option<CalendarTime>)
    ensures
        r matches Some(t) ==> t.wf(),
        instant_in_range(secs as int, nanos as int) ==> r is Some,
{
    match chrono::DateTime::from_timestamp(secs, nanos) {
        Some(utc) => {
            let v = utc.with_timezone(&chrono::Local);
            Some(CalendarTime {
                year: v.year(),
                month: v.month() as u8,
                day: v.day() as u8,
                hour: v.hour() as u8,
                minute: v.minute() as u8,
                second: v.second() as u8,
            })
        },
        None => None,
    }
}

pub open spec fn is_digit(c: char) -> bool {
    '0' <= c <= '9'
}

/// The characters of a year or a two-digit field: digits and signs.
pub open spec fn number_char(c: char) -> bool {
    is_digit(c) || c == '+' || c == '-'
}

proof fn lemma_fixed_digits(n: nat, w: nat)
    ensures
        fixed_digits(n, w).len() == w,
        forall|i: int| 0 <= i < w ==> is_digit(#[trigger] fixed_digits(n, w)[i]),
    decreases w,
{
    if w > 0 {
        lemma_fixed_digits(n / 10, (w - 1) as nat);
    }
}

proof fn lemma_decimal(n: nat)
    ensures
        forall|i: int| 0 <= i < decimal(n).len() ==> is_digit(#[trigger] decimal(n)[i]),
    decreases n,
{
    if n >= 10 {
        lemma_decimal(n / 10);
        let d = decimal(n / 10);
        assert forall|i: int| 0 <= i < decimal(n).len() implies is_digit(#[trigger] decimal(n)[i]) by {
            if i < d.len() {
                assert(decimal(n)[i] == d[i]);
            }
        }
    }
}

proof fn lemma_year_text(y: int)
    ensures
        forall|i: int| 0 <= i < year_text(y).len() ==> number_char(#[trigger] year_text(y)[i]),
{
    lemma_fixed_digits(y as nat, 4);
    lemma_fixed_digits((-y) as nat, 4);
    lemma_decimal(y as nat);
    lemma_decimal((-y) as nat);
    let s = year_text(y);
    assert forall|i: int| 0 <= i < s.len() implies number_char(#[trigger] s[i]) by {
        if 0 <= y < 10000 {
            assert(s[i] == fixed_digits(y as nat, 4)[i]);
        } else if y >= 10000 {
            if i > 0 {
                assert(s[i] == decimal(y as nat)[i - 1]);
            } else {
                assert(s[i] == '+');
            }
        } else if y > -10000 {
            if i > 0 {
                assert(s[i] == fixed_digits((-y) as nat, 4)[i - 1]);
            } else {
                assert(s[i] == '-');
            }
        } else {
            if i > 0 {
                assert(s[i] == decimal((-y) as nat)[i - 1]);
            } else {
                assert(s[i] == '-');
            }
        }
    }
}

/// A capture date string is safe as a path: it holds no ':' and no ' ', exactly one
/// '/', which follows the year, and after it the year again followed by '-'.
pub proof fn lemma_nested_form_shape(t: (int, int, int, int, int, int))
    ensures
        forall|i: int| 0 <= i < nested_form(t).len() ==> #[trigger] nested_form(t)[i] != ':' && nested_form(t)[i] != ' ',
        forall|i: int| 0 <= i < nested_form(t).len() ==> (#[trigger] nested_form(t)[i] == '/' <==> i == year_text(t.0).len()),
        nested_form(t).skip(year_text(t.0).len() as int + 1).take(year_text(t.0).len() as int + 1) == year_text(t.0).push('-'),
{
    let y = year_text(t.0);
    let rest = y + seq!['-'] + two_digits(t.1) + seq!['-'] + two_digits(t.2);
    let s = nested_form(t);
    assert(s =~= y + seq!['/'] + rest);
    lemma_year_text(t.0);
    lemma_fixed_digits(t.1 as nat, 2);
    lemma_fixed_digits(t.2 as nat, 2);
    assert forall|j: int| 0 <= j < rest.len() implies number_char(#[trigger] rest[j]) by {
        let m = two_digits(t.1);
        if j < y.len() {
            assert(rest[j] == y[j]);
        } else if j == y.len() {
        } else if j < y.len() + 1 + m.len() {
            assert(rest[j] == m[j - y.len() - 1]);
        } else if j == y.len() + 1 + m.len() {
        } else {
            assert(rest[j] == two_digits(t.2)[j - y.len() - 2 - m.len()]);
        }
    }
    assert forall|i: int| 0 <= i < s.len() implies (#[trigger] s[i] != ':' && s[i] != ' ') && (s[i] == '/' <==> i == y.len()) by {
        if i < y.len() {
            assert(s[i] == y[i]);
        } else if i > y.len() {
            assert(s[i] == rest[i - y.len() - 1]);
        }
    }
    assert(s.skip(y.len() as int + 1).take(y.len() as int + 1) =~= y.push('-'));
}

fn digit_str(d: u64) -> (s: &'static str)
    requires
        d < 10,
    ensures
        s@ == seq![digit_char(d as int)],
{
    if d == 0 {
        proof { reveal_strlit("0"); }
        "0"
    } else if d == 1 {
        proof { reveal_strlit("1"); }
        "1"
    } else if d == 2 {
        proof { reveal_strlit("2"); }
        "2"
    } else if d == 3 {
        proof { reveal_strlit("3"); }
        "3"
    } else if d == 4 {
        proof { reveal_strlit("4"); }
        "4"
    } else if d == 5 {
        proof { reveal_strlit("5"); }
        "5"
    } else if d == 6 {
        proof { reveal_strlit("6"); }
        "6"
    } else if d == 7 {
        proof { reveal_strlit("7"); }
        "7"
    } else if d == 8 {
        proof { reveal_strlit("8"); }
        "8"
    } else {
        proof { reveal_strlit("9"); }
        "9"
    }
}

fn append_decimal(out: &mut String, n: u64)
    ensures
        final(out)@ == old(out)@ + decimal(n as nat),
    decreases n,
{
    if n >= 10 {
        append_decimal(out, n / 10);
    }
    out.append(digit_str(n % 10));
}

fn append_fixed(out: &mut String, n: u64, w: u64)
    ensures
        final(out)@ == old(out)@ + fixed_digits(n as nat, w as nat),
    decreases w,
{
    if w > 0 {
        append_fixed(out, n / 10, w - 1);
        out.append(digit_str(n % 10));
    }
}

fn append_str(out: &mut String, s: &str)
    ensures
        final(out)@ == old(out)@ + s@,
{
    out.append(s);
}

fn append_year(out: &mut String, y: i32)
    ensures
        final(out)@ == old(out)@ + year_text(y as int),
{
    if 0 <= y && y < 10000 {
        append_fixed(out, y as u64, 4);
    } else if y >= 10000 {
        proof { reveal_strlit("+"); }
        append_str(out, "+");
        append_decimal(out, y as u64);
    } else {
        proof { reveal_strlit("-"); }
        append_str(out, "-");
        let a: u64 = (-(y as i64)) as u64;
        if y > -10000 {
            append_fixed(out, a, 4);
        } else {
            append_decimal(out, a);
        }
    }
}

impl CalendarTime {
    /// The `year/year-month-day` string of this date.
    pub fn nested_date(&self) -> (r: String)
        ensures
            r@ == nested_form(self@),
    {
        proof {
            reveal_strlit("/");
            reveal_strlit("-");
        }
        let mut out = String::new();
        append_year(&mut out, self.year);
        append_str(&mut out, "/");
        append_year(&mut out, self.year);
        append_str(&mut out, "-");
        append_fixed(&mut out, self.month as u64, 2);
        append_str(&mut out, "-");
        append_fixed(&mut out, self.day as u64, 2);
        assert(out@ =~= nested_form(self@));
        out
    }

    /// The `year-month-day_hour-minute-second` string of this date and time.
    pub fn flat_date(&self) -> (r: String)
        ensures
            r@ == flat_form(self@),
    {
        proof {
            reveal_strlit("_");
            reveal_strlit("-");
        }
        let mut out = String::new();
        append_year(&mut out, self.year);
        append_str(&mut out, "-");
        append_fixed(&mut out, self.month as u64, 2);
        append_str(&mut out, "-");
        append_fixed(&mut out, self.day as u64, 2);
        append_str(&mut out, "_");
        append_fixed(&mut out, self.hour as u64, 2);
        append_str(&mut out, "-");
        append_fixed(&mut out, self.minute as u64, 2);
        append_str(&mut out, "-");
        append_fixed(&mut out, self.second as u64, 2);
        assert(out@ =~= flat_form(self@));
        out
    }
}

} // verus!
