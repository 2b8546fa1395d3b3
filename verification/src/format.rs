//! Plain-text rendering of dates and times, with an exact character-level
//! specification.

use vstd::prelude::*;
use vstd::string::StrSliceExecFns;
use vstd::string::StringExecFns;

use crate::datetime::DateTime;
use crate::naive::DateRep;
use crate::naive::DateTimeRep;
use crate::naive::NaiveDate;
use crate::naive::NaiveTime;
use crate::naive::TimeRep;
use crate::naive::days_before_month;
use crate::naive::days_before_month_x;
use crate::naive::MAX_YEAR;
use crate::naive::MIN_YEAR;
use crate::offset::Utc;

verus! {

/// The decimal digit character for a value below ten.
pub open spec fn spec_digit(d: int) -> char {
    if d == 0 {
        '0'
    } else if d == 1 {
        '1'
    } else if d == 2 {
        '2'
    } else if d == 3 {
        '3'
    } else if d == 4 {
        '4'
    } else if d == 5 {
        '5'
    } else if d == 6 {
        '6'
    } else if d == 7 {
        '7'
    } else if d == 8 {
        '8'
    } else {
        '9'
    }
}

/// The decimal digits of a non-negative number, most significant first.
pub open spec fn spec_dec(n: int) -> Seq<char>
    decreases n,
{
    if n < 10 {
        seq![spec_digit(n)]
    } else {
        spec_dec(n / 10).push(spec_digit(n % 10))
    }
}

/// `k` zero characters.
pub open spec fn spec_zeros(k: int) -> Seq<char>
    decreases k,
{
    if k <= 0 {
        Seq::empty()
    } else {
        spec_zeros(k - 1).push('0')
    }
}

/// `s` preceded by as many zeros as it takes to reach width `w`.
pub open spec fn spec_zero_pad(s: Seq<char>, w: int) -> Seq<char> {
    spec_zeros(w - s.len()) + s
}

/// Appends the digit character of `d`.
fn append_digit(s: &mut String, d: u32)
    requires
        d < 10,
    ensures
        final(s)@ == old(s)@.push(spec_digit(d as int)),
{
    proof {
        reveal_strlit("0");
        reveal_strlit("1");
        reveal_strlit("2");
        reveal_strlit("3");
        reveal_strlit("4");
        reveal_strlit("5");
        reveal_strlit("6");
        reveal_strlit("7");
        reveal_strlit("8");
        reveal_strlit("9");
    }
    if d == 0 {
        s.append("0");
    } else if d == 1 {
        s.append("1");
    } else if d == 2 {
        s.append("2");
    } else if d == 3 {
        s.append("3");
    } else if d == 4 {
        s.append("4");
    } else if d == 5 {
        s.append("5");
    } else if d == 6 {
        s.append("6");
    } else if d == 7 {
        s.append("7");
    } else if d == 8 {
        s.append("8");
    } else {
        s.append("9");
    }
    proof {
        assert(s@ =~= old(s)@.push(spec_digit(d as int)));
    }
}

/// Appends the decimal digits of `n`, most significant first.
fn append_decimal(s: &mut String, n: u32)
    ensures
        final(s)@ == old(s)@ + spec_dec(n as int),
    decreases n,
{
    if n >= 10 {
        append_decimal(s, n / 10);
    }
    append_digit(s, n % 10);
    proof {
        assert(s@ =~= old(s)@ + spec_dec(n as int));
    }
}

/// Appends `k` zero characters.
fn append_zeros(s: &mut String, k: u32)
    ensures
        final(s)@ == old(s)@ + spec_zeros(k as int),
    decreases k,
{
    if k > 0 {
        append_zeros(s, k - 1);
        proof {
            reveal_strlit("0");
        }
        s.append("0");
    }
    proof {
        assert(s@ =~= old(s)@ + spec_zeros(k as int));
    }
}

/// Appends the decimal digits of `n`, zero-padded to width `width`.
fn append_decimal_padded(s: &mut String, n: u32, width: u32)
    ensures
        final(s)@ == old(s)@ + spec_zero_pad(spec_dec(n as int), width as int),
{
    let mut digits = String::new();
    append_decimal(&mut digits, n);
    let l = digits.as_str().unicode_len();
    if l < width as usize {
        append_zeros(s, width - l as u32);
    }
    s.append(digits.as_str());
    proof {
        assert(s@ =~= old(s)@ + spec_zero_pad(spec_dec(n as int), width as int));
    }
}

/// The first month of year `y` in which the ordinal `o` does not reach past
/// the month's end, starting the search at month `m`.
pub open spec fn spec_month_of(y: int, o: int, m: int) -> int
    decreases 12 - m,
{
    if m >= 12 || o <= days_before_month(y, m + 1) {
        m
    } else {
        spec_month_of(y, o, m + 1)
    }
}

/// The month (1-based) in which day `o` of year `y` falls.
pub open spec fn spec_month(y: int, o: int) -> int {
    spec_month_of(y, o, 1)
}

/// The day of the month (1-based) on which day `o` of year `y` falls.
pub open spec fn spec_day(y: int, o: int) -> int {
    o - days_before_month(y, spec_month(y, o))
}

/// Finds the month holding ordinal `o`, searching from month `m` upward.
fn month_of_x(year: i32, o: u32, m: u32) -> (r: u32)
    requires
        MIN_YEAR <= year <= MAX_YEAR,
        1 <= m <= 12,
        days_before_month(year as int, m as int) < o as int,
    ensures
        r as int == spec_month_of(year as int, o as int, m as int),
        1 <= r <= 12,
        days_before_month(year as int, r as int) < o as int,
    decreases 12 - m,
{
    if m >= 12 {
        m
    } else {
        let b = days_before_month_x(year, m + 1);
        if o <= b {
            m
        } else {
            month_of_x(year, o, m + 1)
        }
    }
}

/// The text of a year: zero-padded to four digits, with an explicit sign
/// outside the range 0 to 9999.
pub open spec fn spec_year_text(y: int) -> Seq<char> {
    if 0 <= y <= 9999 {
        spec_zero_pad(spec_dec(y), 4)
    } else if y > 9999 {
        seq!['+'] + spec_zero_pad(spec_dec(y), 4)
    } else {
        seq!['-'] + spec_zero_pad(spec_dec(-y), 4)
    }
}

/// The text of a calendar day, `YYYY-MM-DD`.
pub open spec fn spec_date_text(d: DateRep) -> Seq<char> {
    spec_year_text(d.year) + seq!['-'] + spec_zero_pad(
        spec_dec(spec_month(d.year, d.ordinal)),
        2,
    ) + seq!['-'] + spec_zero_pad(spec_dec(spec_day(d.year, d.ordinal)), 2)
}

/// The text of a sub-second fraction: empty when zero, else a point and the
/// shortest of three, six or nine zero-padded digits that renders it
/// exactly.
pub open spec fn spec_frac_text(f: int) -> Seq<char> {
    if f == 0 {
        Seq::empty()
    } else if f % 1_000_000 == 0 {
        seq!['.'] + spec_zero_pad(spec_dec(f / 1_000_000), 3)
    } else if f % 1000 == 0 {
        seq!['.'] + spec_zero_pad(spec_dec(f / 1000), 6)
    } else {
        seq!['.'] + spec_zero_pad(spec_dec(f), 9)
    }
}

/// The text of a time of day, `HH:MM:SS` with the fraction appended; a
/// leap second shows as second sixty.
pub open spec fn spec_time_text(t: TimeRep) -> Seq<char> {
    let sec = if t.frac >= 1_000_000_000 {
        t.secs % 60 + 1
    } else {
        t.secs % 60
    };
    let f = if t.frac >= 1_000_000_000 {
        t.frac - 1_000_000_000
    } else {
        t.frac
    };
    spec_zero_pad(spec_dec(t.secs / 3600), 2) + seq![':'] + spec_zero_pad(
        spec_dec(t.secs / 60 % 60),
        2,
    ) + seq![':'] + spec_zero_pad(spec_dec(sec), 2) + spec_frac_text(f)
}

/// The text of a date and time, the day and the time of day separated by a
/// space.
pub open spec fn spec_datetime_text(v: DateTimeRep) -> Seq<char> {
    spec_date_text(v.date) + seq![' '] + spec_time_text(v.time)
}

/// Appends the text of the calendar day `d`.
fn append_date(s: &mut String, d: &NaiveDate)
    ensures
        final(s)@ == old(s)@ + spec_date_text(d@),
{
    proof {
        use_type_invariant(d);
        reveal_strlit("+");
        reveal_strlit("-");
    }
    let y = d.year();
    let o = d.ordinal();
    if 0 <= y && y <= 9999 {
        append_decimal_padded(s, y as u32, 4);
    } else if y > 9999 {
        s.append("+");
        append_decimal_padded(s, y as u32, 4);
    } else {
        s.append("-");
        append_decimal_padded(s, (-y) as u32, 4);
    }
    proof {
        assert(s@ =~= old(s)@ + spec_year_text(d@.year));
    }
    s.append("-");
    let m = month_of_x(y, o, 1);
    append_decimal_padded(s, m, 2);
    s.append("-");
    append_decimal_padded(s, o - days_before_month_x(y, m), 2);
    proof {
        assert(s@ =~= old(s)@ + spec_date_text(d@));
    }
}

/// Appends the text of the time of day `t`.
fn append_time(s: &mut String, t: &NaiveTime)
    ensures
        final(s)@ == old(s)@ + spec_time_text(t@),
{
    proof {
        use_type_invariant(t);
        reveal_strlit(":");
        reveal_strlit(".");
    }
    let secs = t.num_seconds_from_midnight();
    let frac = t.nanosecond();
    append_decimal_padded(s, secs / 3600, 2);
    s.append(":");
    append_decimal_padded(s, secs / 60 % 60, 2);
    s.append(":");
    let sec: u32 = if frac >= 1_000_000_000 {
        secs % 60 + 1
    } else {
        secs % 60
    };
    let f: u32 = if frac >= 1_000_000_000 {
        frac - 1_000_000_000
    } else {
        frac
    };
    append_decimal_padded(s, sec, 2);
    if f != 0 {
        s.append(".");
        if f % 1_000_000 == 0 {
            append_decimal_padded(s, f / 1_000_000, 3);
        } else if f % 1000 == 0 {
            append_decimal_padded(s, f / 1000, 6);
        } else {
            append_decimal_padded(s, f, 9);
        }
    }
    proof {
        assert(s@ =~= old(s)@ + spec_time_text(t@));
    }
}

impl DateTime<Utc> {
    /// Renders this instant as `YYYY-MM-DD HH:MM:SS UTC`, with the
    /// sub-second fraction, when there is one, appended to the seconds.
    pub fn to_string(&self) -> (r: String)
        ensures
            r@ == spec_datetime_text(self.datetime@) + " UTC"@,
    {
        let mut s = String::new();
        let date = self.datetime.date();
        let time = self.datetime.time();
        append_date(&mut s, &date);
        proof {
            reveal_strlit(" ");
        }
        s.append(" ");
        append_time(&mut s, &time);
        s.append(" UTC");
        proof {
            assert(s@ =~= spec_datetime_text(self.datetime@) + " UTC"@);
        }
        s
    }
}

} // verus!
