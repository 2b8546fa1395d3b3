//! Zone-less ("naive") calendar values: dates, times of day, and their
//! combination, together with the proleptic Gregorian arithmetic that relates
//! them to day and second counts from the Unix epoch.

use vstd::prelude::*;

use crate::error::ChronoError;
use crate::error::ChronoErrorKind;

verus! {

/// First calendar year a [`NaiveDate`] can hold.
pub const MIN_YEAR: i32 = -262144;

/// Last calendar year a [`NaiveDate`] can hold.
pub const MAX_YEAR: i32 = 262143;

/// Whether `y` is a leap year of the proleptic Gregorian calendar
/// (year 0 counts as 1 BCE and is a leap year).
pub open spec fn is_leap_year(y: int) -> bool {
    (y % 4 == 0 && y % 100 != 0) || y % 400 == 0
}

/// Number of days in year `y`.
pub open spec fn days_in_year(y: int) -> int {
    if is_leap_year(y) {
        366
    } else {
        365
    }
}

/// Number of days from 0000-01-01 to `y`-01-01; negative for years before 0.
pub open spec fn days_before_year(y: int) -> int
    decreases (if y >= 0 { y } else { -y }),
{
    if y > 0 {
        days_before_year(y - 1) + days_in_year(y - 1)
    } else if y < 0 {
        days_before_year(y + 1) - days_in_year(y)
    } else {
        0
    }
}

/// Stepping one year forward adds exactly that year's length.
pub proof fn lemma_days_before_year_succ(y: int)
    ensures
        days_before_year(y + 1) == days_before_year(y) + days_in_year(y),
{
    if y + 1 > 0 {
        assert(days_before_year(y + 1) == days_before_year(y) + days_in_year(y));
    } else {
        assert(days_before_year(y) == days_before_year(y + 1) - days_in_year(y));
    }
}

/// Every span of years covers between 365 and 366 days per year.
pub proof fn lemma_days_before_year_bounds(y1: int, y2: int)
    requires
        y1 <= y2,
    ensures
        days_before_year(y1) + 365 * (y2 - y1) <= days_before_year(y2),
        days_before_year(y2) <= days_before_year(y1) + 366 * (y2 - y1),
    decreases y2 - y1,
{
    if y1 < y2 {
        lemma_days_before_year_bounds(y1, y2 - 1);
        lemma_days_before_year_succ(y2 - 1);
    }
}

/// Number of days in month `m` (1-based) of year `y`.
pub open spec fn days_in_month(y: int, m: int) -> int {
    if m == 2 {
        if is_leap_year(y) {
            29
        } else {
            28
        }
    } else if m == 4 || m == 6 || m == 9 || m == 11 {
        30
    } else {
        31
    }
}

/// Number of days of year `y` that precede month `m` (1-based).
pub open spec fn days_before_month(y: int, m: int) -> int
    decreases m,
{
    if m <= 1 {
        0
    } else {
        days_before_month(y, m - 1) + days_in_month(y, m - 1)
    }
}

/// The twelve months together cover the whole year.
pub proof fn lemma_months_cover_year(y: int)
    ensures
        days_before_month(y, 13) == days_in_year(y),
{
    reveal_with_fuel(days_before_month, 14);
}

/// `days_before_month` grows with the month.
pub proof fn lemma_days_before_month_mono(y: int, m1: int, m2: int)
    requires
        m1 <= m2,
    ensures
        days_before_month(y, m1) <= days_before_month(y, m2),
    decreases m2 - m1,
{
    if m1 < m2 {
        lemma_days_before_month_mono(y, m1, m2 - 1);
    }
}

/// A valid pair of year and 1-based day of year.
pub open spec fn valid_year_ordinal(y: int, o: int) -> bool {
    &&& MIN_YEAR as int <= y <= MAX_YEAR as int
    &&& 1 <= o <= days_in_year(y)
}

/// Valid proleptic Gregorian calendar coordinates.
pub open spec fn valid_ymd(y: int, m: int, d: int) -> bool {
    &&& MIN_YEAR as int <= y <= MAX_YEAR as int
    &&& 1 <= m <= 12
    &&& 1 <= d <= days_in_month(y, m)
}

/// The 1-based day of year of the calendar day `y`-`m`-`d`.
pub open spec fn ordinal_of_ymd(y: int, m: int, d: int) -> int {
    days_before_month(y, m) + d
}

/// The mathematical content of a [`NaiveDate`]: a year and a day of year.
pub ghost struct DateRep {
    /// Proleptic Gregorian year.
    pub year: int,
    /// 1-based day of the year.
    pub ordinal: int,
}

/// Number of days from the Unix epoch (1970-01-01) to the day `d`;
/// negative for earlier days.
pub open spec fn spec_days_from_epoch(d: DateRep) -> int {
    days_before_year(d.year) + d.ordinal - 1 - days_before_year(1970)
}

/// The day number of the earliest representable date.
pub open spec fn spec_min_days() -> int {
    days_before_year(MIN_YEAR as int) - days_before_year(1970)
}

/// The day number of the latest representable date.
pub open spec fn spec_max_days() -> int {
    days_before_year(MAX_YEAR as int + 1) - 1 - days_before_year(1970)
}

/// Whether a day number falls on a representable date.
pub open spec fn spec_days_in_range(d: int) -> bool {
    spec_min_days() <= d <= spec_max_days()
}

/// A date of the proleptic Gregorian calendar, without a time zone.
#[derive(Debug, Clone, Copy, PartialEq, Eq, Hash, Structural)]
pub struct NaiveDate {
    year: i32,
    ordinal: u32,
}

impl View for NaiveDate {
    type V = DateRep;

    closed spec fn view(&self) -> DateRep {
        DateRep { year: self.year as int, ordinal: self.ordinal as int }
    }
}

impl NaiveDate {
    /// Every constructed date holds a valid year and ordinal; the library
    /// maintains this as a type invariant.
    #[verifier::type_invariant]
    pub open spec fn wf(self) -> bool {
        valid_year_ordinal(self@.year, self@.ordinal)
    }

    /// Makes a new date from year, month and day.
    ///
    /// Fails with an invalid-date error when the coordinates do not name a
    /// calendar day or the year is out of the supported range.
    pub fn from_ymd(year: i32, month: u32, day: u32) -> (r: Result<NaiveDate, ChronoError>)
        ensures
            valid_ymd(year as int, month as int, day as int) ==> (r matches Ok(d) && d@ == (
            DateRep {
                year: year as int,
                ordinal: ordinal_of_ymd(year as int, month as int, day as int),
            })),
            !valid_ymd(year as int, month as int, day as int) ==> (r matches Err(e)
                && e.spec_kind() == ChronoErrorKind::InvalidDate),
    {
        if year < MIN_YEAR || year > MAX_YEAR || month < 1 || month > 12 {
            return Err(ChronoError::new(ChronoErrorKind::InvalidDate));
        }
        if day < 1 || day > days_in_month_x(year, month) {
            return Err(ChronoError::new(ChronoErrorKind::InvalidDate));
        }
        let ordinal = days_before_month_x(year, month) + day;
        proof {
            lemma_days_before_month_mono(year as int, month as int + 1, 13);
            lemma_months_cover_year(year as int);
        }
        Ok(NaiveDate { year, ordinal })
    }

    /// Makes a new date from year and 1-based day of year.
    ///
    /// Fails with an invalid-date error when the ordinal does not fall inside
    /// the year or the year is out of the supported range.
    pub fn from_yo(year: i32, ordinal: u32) -> (r: Result<NaiveDate, ChronoError>)
        ensures
            valid_year_ordinal(year as int, ordinal as int) ==> (r matches Ok(d) && d@ == (
            DateRep { year: year as int, ordinal: ordinal as int })),
            !valid_year_ordinal(year as int, ordinal as int) ==> (r matches Err(e)
                && e.spec_kind() == ChronoErrorKind::InvalidDate),
    {
        if year < MIN_YEAR || year > MAX_YEAR || ordinal < 1 || ordinal > days_in_year_x(year) {
            return Err(ChronoError::new(ChronoErrorKind::InvalidDate));
        }
        Ok(NaiveDate { year, ordinal })
    }

    /// Makes the date lying `days` days after the Unix epoch (1970-01-01);
    /// `days` may be negative.
    ///
    /// Fails with an invalid-date error exactly when the day falls outside
    /// the supported range of years.
    pub fn from_days_from_epoch(days: i64) -> (r: Result<NaiveDate, ChronoError>)
        ensures
            r matches Ok(d) ==> spec_min_days() <= days <= spec_max_days() && spec_days_from_epoch(
                d@,
            ) == days,
            r matches Err(e) ==> !(spec_min_days() <= days <= spec_max_days()) && e.spec_kind()
                == ChronoErrorKind::InvalidDate,
    {
        proof {
            lemma_days_before_year_bounds(MIN_YEAR as int, 1970);
            lemma_days_before_year_bounds(1970, MAX_YEAR as int + 1);
        }
        if days < -97_000_000 || days > 97_000_000 {
            return Err(ChronoError::new(ChronoErrorKind::InvalidDate));
        }
        let mut y: i32 = 1970;
        let mut rem: i64 = days;
        while rem < 0
            invariant
                MIN_YEAR <= y <= 1970,
                days_before_year(y as int) + rem == days + days_before_year(1970),
                rem <= 97_000_000,
            decreases (if rem < 0 { -rem } else { 0 }),
        {
            if y == MIN_YEAR {
                proof {
                    assert(days + days_before_year(1970) < days_before_year(MIN_YEAR as int));
                }
                return Err(ChronoError::new(ChronoErrorKind::InvalidDate));
            }
            y = y - 1;
            rem = rem + days_in_year_x(y) as i64;
        }
        while rem >= days_in_year_x(y) as i64
            invariant
                MIN_YEAR <= y <= MAX_YEAR,
                days_before_year(y as int) + rem == days + days_before_year(1970),
                0 <= rem <= 2 * 97_000_000,
            decreases rem,
        {
            if y == MAX_YEAR {
                proof {
                    lemma_days_before_year_succ(MAX_YEAR as int);
                }
                return Err(ChronoError::new(ChronoErrorKind::InvalidDate));
            }
            rem = rem - days_in_year_x(y) as i64;
            y = y + 1;
        }
        proof {
            lemma_days_before_year_bounds(MIN_YEAR as int, y as int);
            lemma_days_before_year_succ(y as int);
            lemma_days_before_year_bounds(y as int + 1, MAX_YEAR as int + 1);
        }
        Ok(NaiveDate { year: y, ordinal: (rem + 1) as u32 })
    }

    /// Number of days from the Unix epoch to this date; negative for dates
    /// before 1970-01-01.
    pub fn days_from_epoch(&self) -> (r: i64)
        ensures
            r as int == spec_days_from_epoch(self@),
            spec_min_days() <= r as int <= spec_max_days(),
            -97_000_000 <= r <= 97_000_000,
    {
        proof {
            use_type_invariant(self);
            lemma_days_before_year_bounds(MIN_YEAR as int, 1970);
            lemma_days_before_year_bounds(1970, MAX_YEAR as int + 1);
            lemma_days_before_year_bounds(MIN_YEAR as int, self@.year);
            lemma_days_before_year_bounds(self@.year, MAX_YEAR as int + 1);
            lemma_days_before_year_succ(self@.year);
        }
        let mut y: i32 = 1970;
        let mut acc: i64 = 0;
        if self.year >= 1970 {
            while y < self.year
                invariant
                    1970 <= y <= self.year <= MAX_YEAR,
                    acc == days_before_year(y as int) - days_before_year(1970),
                    0 <= acc <= 97_000_000,
                decreases self.year - y,
            {
                proof {
                    lemma_days_before_year_bounds(1970, y as int + 1);
                    lemma_days_before_year_succ(y as int);
                }
                acc = acc + days_in_year_x(y) as i64;
                y = y + 1;
            }
        } else {
            while y > self.year
                invariant
                    MIN_YEAR <= self.year <= y <= 1970,
                    acc == days_before_year(y as int) - days_before_year(1970),
                    -97_000_000 <= acc <= 0,
                decreases y - self.year,
            {
                proof {
                    lemma_days_before_year_bounds(y as int - 1, 1970);
                    lemma_days_before_year_succ(y as int - 1);
                }
                y = y - 1;
                acc = acc - days_in_year_x(y) as i64;
            }
        }
        acc + self.ordinal as i64 - 1
    }

    /// Makes a new date from an ISO week date: year, week number and day of
    /// the week.  The resulting date may lie in the neighbouring calendar
    /// year.
    ///
    /// Fails with an invalid-date error when the week number does not fall
    /// inside the ISO week year, or the named day is out of the supported
    /// range.
    pub fn from_isoywd(year: i32, week: u32, weekday: Weekday) -> (r: Result<
        NaiveDate,
        ChronoError,
    >)
        ensures
            r matches Ok(d) ==> MIN_YEAR as int <= year as int <= MAX_YEAR as int && 1
                <= week as int <= spec_iso_weeks_in_year(year as int) && spec_days_from_epoch(d@)
                == spec_isoywd_day(
                year as int,
                week as int,
                weekday.spec_num_days_from_monday(),
            ) && spec_min_days() <= spec_days_from_epoch(d@) <= spec_max_days(),
            r matches Err(e) ==> e.spec_kind() == ChronoErrorKind::InvalidDate && !(MIN_YEAR as int
                <= year as int <= MAX_YEAR as int && 1 <= week as int <= spec_iso_weeks_in_year(
                year as int,
            ) && spec_min_days() <= spec_isoywd_day(
                year as int,
                week as int,
                weekday.spec_num_days_from_monday(),
            ) <= spec_max_days()),
    {
        if year < MIN_YEAR || year > MAX_YEAR {
            return Err(ChronoError::new(ChronoErrorKind::InvalidDate));
        }
        let jan1 = NaiveDate { year, ordinal: 1 };
        let d0 = jan1.days_from_epoch();
        let jan1_wd = rem7(d0 + 3);
        let jan4_wd = rem7(d0 + 6);
        let week1_mon: i64 = d0 + 3 - jan4_wd as i64;
        let nweeks: u32 = if jan1_wd == 3 || (is_leap_year_x(year) && jan1_wd == 2) {
            53
        } else {
            52
        };
        if week < 1 || week > nweeks {
            return Err(ChronoError::new(ChronoErrorKind::InvalidDate));
        }
        let target: i64 = week1_mon + 7 * (week as i64 - 1) + weekday.num_days_from_monday() as i64;
        NaiveDate::from_days_from_epoch(target)
    }

    /// The date one day after this one.
    ///
    /// Fails with an invalid-date error exactly when this date is the last
    /// representable one.
    pub fn succ(self) -> (r: Result<NaiveDate, ChronoError>)
        ensures
            r is Ok <==> spec_days_from_epoch(self@) < spec_max_days(),
            r matches Ok(d) ==> spec_days_from_epoch(d@) == spec_days_from_epoch(self@) + 1,
            r matches Err(e) ==> e.spec_kind() == ChronoErrorKind::InvalidDate,
    {
        proof {
            use_type_invariant(&self);
            lemma_days_before_year_succ(self@.year);
            lemma_days_before_year_bounds(self@.year + 1, MAX_YEAR as int + 1);
        }
        if self.ordinal < days_in_year_x(self.year) {
            Ok(NaiveDate { year: self.year, ordinal: self.ordinal + 1 })
        } else if self.year < MAX_YEAR {
            Ok(NaiveDate { year: self.year + 1, ordinal: 1 })
        } else {
            Err(ChronoError::new(ChronoErrorKind::InvalidDate))
        }
    }

    /// The date one day before this one.
    ///
    /// Fails with an invalid-date error exactly when this date is the first
    /// representable one.
    pub fn pred(self) -> (r: Result<NaiveDate, ChronoError>)
        ensures
            r is Ok <==> spec_days_from_epoch(self@) > spec_min_days(),
            r matches Ok(d) ==> spec_days_from_epoch(d@) == spec_days_from_epoch(self@) - 1,
            r matches Err(e) ==> e.spec_kind() == ChronoErrorKind::InvalidDate,
    {
        proof {
            use_type_invariant(&self);
            lemma_days_before_year_succ(self@.year - 1);
            lemma_days_before_year_bounds(MIN_YEAR as int, self@.year);
        }
        if self.ordinal > 1 {
            Ok(NaiveDate { year: self.year, ordinal: self.ordinal - 1 })
        } else if self.year > MIN_YEAR {
            let y = self.year - 1;
            Ok(NaiveDate { year: y, ordinal: days_in_year_x(y) })
        } else {
            Err(ChronoError::new(ChronoErrorKind::InvalidDate))
        }
    }

    /// The day of the week this date falls on.
    pub fn weekday(&self) -> (r: Weekday)
        ensures
            r.spec_num_days_from_monday() == spec_weekday_num_of_day(spec_days_from_epoch(self@)),
    {
        let days = self.days_from_epoch();
        let n = rem7(days + 3);
        Weekday::from_num_days_from_monday(n)
    }

    /// The year of this date.
    pub fn year(&self) -> (r: i32)
        ensures
            r as int == self@.year,
    {
        self.year
    }

    /// The 1-based day of year of this date.
    pub fn ordinal(&self) -> (r: u32)
        ensures
            r as int == self@.ordinal,
    {
        self.ordinal
    }
}

/// Whether `year` is a leap year; executable counterpart of [`is_leap_year`].
pub fn is_leap_year_x(year: i32) -> (b: bool)
    requires
        MIN_YEAR - 1 <= year <= MAX_YEAR + 1,
    ensures
        b == is_leap_year(year as int),
{
    (year % 4 == 0 && year % 100 != 0) || year % 400 == 0
}

/// Number of days in `year`; executable counterpart of [`days_in_year`].
pub fn days_in_year_x(year: i32) -> (r: u32)
    requires
        MIN_YEAR - 1 <= year <= MAX_YEAR + 1,
    ensures
        r == days_in_year(year as int),
{
    if is_leap_year_x(year) {
        366
    } else {
        365
    }
}

/// Number of days in a month; executable counterpart of [`days_in_month`].
pub fn days_in_month_x(year: i32, month: u32) -> (r: u32)
    requires
        MIN_YEAR <= year <= MAX_YEAR,
        1 <= month <= 12,
    ensures
        r == days_in_month(year as int, month as int),
{
    if month == 2 {
        if is_leap_year_x(year) {
            29
        } else {
            28
        }
    } else if month == 4 || month == 6 || month == 9 || month == 11 {
        30
    } else {
        31
    }
}

/// The day of the week.
#[derive(Debug, Clone, Copy, PartialEq, Eq, Hash, Structural)]
pub enum Weekday {
    /// Monday.
    Mon,
    /// Tuesday.
    Tue,
    /// Wednesday.
    Wed,
    /// Thursday.
    Thu,
    /// Friday.
    Fri,
    /// Saturday.
    Sat,
    /// Sunday.
    Sun,
}

impl Weekday {
    /// The number of days from Monday to this day: Monday is 0, Sunday is 6.
    pub open spec fn spec_num_days_from_monday(&self) -> int {
        match self {
            Weekday::Mon => 0,
            Weekday::Tue => 1,
            Weekday::Wed => 2,
            Weekday::Thu => 3,
            Weekday::Fri => 4,
            Weekday::Sat => 5,
            Weekday::Sun => 6,
        }
    }

    /// The number of days from Monday to this day: Monday is 0, Sunday is 6.
    pub fn num_days_from_monday(&self) -> (r: u32)
        ensures
            r as int == self.spec_num_days_from_monday(),
    {
        match self {
            Weekday::Mon => 0,
            Weekday::Tue => 1,
            Weekday::Wed => 2,
            Weekday::Thu => 3,
            Weekday::Fri => 4,
            Weekday::Sat => 5,
            Weekday::Sun => 6,
        }
    }

    /// The day lying `n` days after Monday, for `n` below 7.
    pub fn from_num_days_from_monday(n: u32) -> (r: Weekday)
        requires
            n < 7,
        ensures
            r.spec_num_days_from_monday() == n as int,
    {
        if n == 0 {
            Weekday::Mon
        } else if n == 1 {
            Weekday::Tue
        } else if n == 2 {
            Weekday::Wed
        } else if n == 3 {
            Weekday::Thu
        } else if n == 4 {
            Weekday::Fri
        } else if n == 5 {
            Weekday::Sat
        } else {
            Weekday::Sun
        }
    }
}

/// The weekday number (Monday is 0) of the day lying `days` days after the
/// Unix epoch, which was a Thursday.
pub open spec fn spec_weekday_num_of_day(days: int) -> int {
    (days + 3) % 7
}

/// The day number of January 1 of year `y`.
pub open spec fn spec_jan1_days(y: int) -> int {
    days_before_year(y) - days_before_year(1970)
}

/// The day number of the Monday of ISO week 1 of year `y`: the week that
/// contains January 4.
pub open spec fn spec_iso_week1_monday(y: int) -> int {
    spec_jan1_days(y) + 3 - spec_weekday_num_of_day(spec_jan1_days(y) + 3)
}

/// Number of weeks in the ISO week year `y`: 53 when January 1 falls on a
/// Thursday, or on a Wednesday of a leap year, otherwise 52.
pub open spec fn spec_iso_weeks_in_year(y: int) -> int {
    if spec_weekday_num_of_day(spec_jan1_days(y)) == 3 || (is_leap_year(y)
        && spec_weekday_num_of_day(spec_jan1_days(y)) == 2) {
        53
    } else {
        52
    }
}

/// The day number named by the ISO week date (`y`, `w`, weekday number `wd`).
pub open spec fn spec_isoywd_day(y: int, w: int, wd: int) -> int {
    spec_iso_week1_monday(y) + 7 * (w - 1) + wd
}

/// Euclidean remainder of `x` by 7.
fn rem7(x: i64) -> (r: u32)
    ensures
        r as int == x as int % 7,
{
    let m = x % 7;
    if m < 0 {
        (m + 7) as u32
    } else {
        m as u32
    }
}

/// The mathematical content of a [`NaiveTime`]: seconds since midnight and a
/// nanosecond fraction.
pub ghost struct TimeRep {
    /// Whole seconds since midnight, below 86 400.
    pub secs: int,
    /// Nanoseconds since the last whole second; values of one billion and
    /// above represent a leap second.
    pub frac: int,
}

/// A valid combination of hour, minute and second of a day.
pub open spec fn valid_hms(h: int, m: int, s: int) -> bool {
    0 <= h < 24 && 0 <= m < 60 && 0 <= s < 60
}

/// The second of the day named by an hour, minute and second.
pub open spec fn spec_secs_of_hms(h: int, m: int, s: int) -> int {
    h * 3600 + m * 60 + s
}

/// A time of day, without a time zone, with nanosecond precision.
///
/// A nanosecond fraction of one billion or above represents a leap second;
/// it can only be attached to the last second of a minute.
#[derive(Debug, Clone, Copy, PartialEq, Eq, Hash, Structural)]
pub struct NaiveTime {
    secs: u32,
    frac: u32,
}

impl View for NaiveTime {
    type V = TimeRep;

    closed spec fn view(&self) -> TimeRep {
        TimeRep { secs: self.secs as int, frac: self.frac as int }
    }
}

impl NaiveTime {
    /// Every constructed time of day holds whole seconds below one day and
    /// a fraction below two billion nanoseconds; the library maintains this
    /// as a type invariant.
    #[verifier::type_invariant]
    pub open spec fn wf(self) -> bool {
        0 <= self@.secs < 86400 && 0 <= self@.frac < 2_000_000_000
    }

    /// Makes a new time from hour, minute and second.
    ///
    /// Fails with an invalid-time error when a component is out of range.
    pub fn from_hms(hour: u32, min: u32, sec: u32) -> (r: Result<NaiveTime, ChronoError>)
        ensures
            valid_hms(hour as int, min as int, sec as int) ==> (r matches Ok(t) && t@ == (TimeRep {
                secs: spec_secs_of_hms(hour as int, min as int, sec as int),
                frac: 0,
            })),
            !valid_hms(hour as int, min as int, sec as int) ==> (r matches Err(e) && e.spec_kind()
                == ChronoErrorKind::InvalidTime),
    {
        NaiveTime::from_hms_nano(hour, min, sec, 0)
    }

    /// Makes a new time from hour, minute, second and millisecond.  The
    /// millisecond part may reach 1 999 to represent a leap second.
    ///
    /// Fails with an invalid-time error when a component is out of range.
    pub fn from_hms_milli(hour: u32, min: u32, sec: u32, milli: u32) -> (r: Result<
        NaiveTime,
        ChronoError,
    >)
        ensures
            valid_hms(hour as int, min as int, sec as int) && milli < 2000 ==> (r matches Ok(t)
                && t@ == (TimeRep {
                secs: spec_secs_of_hms(hour as int, min as int, sec as int),
                frac: milli as int * 1_000_000,
            })),
            !(valid_hms(hour as int, min as int, sec as int) && milli < 2000) ==> (r matches Err(e)
                && e.spec_kind() == ChronoErrorKind::InvalidTime),
    {
        if milli >= 2000 {
            return Err(ChronoError::new(ChronoErrorKind::InvalidTime));
        }
        NaiveTime::from_hms_nano(hour, min, sec, milli * 1_000_000)
    }

    /// Makes a new time from hour, minute, second and microsecond.  The
    /// microsecond part may reach 1 999 999 to represent a leap second.
    ///
    /// Fails with an invalid-time error when a component is out of range.
    pub fn from_hms_micro(hour: u32, min: u32, sec: u32, micro: u32) -> (r: Result<
        NaiveTime,
        ChronoError,
    >)
        ensures
            valid_hms(hour as int, min as int, sec as int) && micro < 2_000_000 ==> (r matches Ok(
                t,
            ) && t@ == (TimeRep {
                secs: spec_secs_of_hms(hour as int, min as int, sec as int),
                frac: micro as int * 1000,
            })),
            !(valid_hms(hour as int, min as int, sec as int) && micro < 2_000_000) ==> (
            r matches Err(e) && e.spec_kind() == ChronoErrorKind::InvalidTime),
    {
        if micro >= 2_000_000 {
            return Err(ChronoError::new(ChronoErrorKind::InvalidTime));
        }
        NaiveTime::from_hms_nano(hour, min, sec, micro * 1000)
    }

    /// Makes a new time from hour, minute, second and nanosecond.  The
    /// nanosecond part may reach 1 999 999 999 to represent a leap second.
    ///
    /// Fails with an invalid-time error when a component is out of range.
    pub fn from_hms_nano(hour: u32, min: u32, sec: u32, nano: u32) -> (r: Result<
        NaiveTime,
        ChronoError,
    >)
        ensures
            valid_hms(hour as int, min as int, sec as int) && nano < 2_000_000_000 ==> (
            r matches Ok(t) && t@ == (TimeRep {
                secs: spec_secs_of_hms(hour as int, min as int, sec as int),
                frac: nano as int,
            })),
            !(valid_hms(hour as int, min as int, sec as int) && nano < 2_000_000_000) ==> (
            r matches Err(e) && e.spec_kind() == ChronoErrorKind::InvalidTime),
    {
        if hour >= 24 || min >= 60 || sec >= 60 || nano >= 2_000_000_000 {
            return Err(ChronoError::new(ChronoErrorKind::InvalidTime));
        }
        Ok(NaiveTime { secs: hour * 3600 + min * 60 + sec, frac: nano })
    }

    /// Whole seconds since midnight.
    pub fn num_seconds_from_midnight(&self) -> (r: u32)
        ensures
            r as int == self@.secs,
    {
        self.secs
    }

    /// Nanoseconds since the last whole second.
    pub fn nanosecond(&self) -> (r: u32)
        ensures
            r as int == self@.frac,
    {
        self.frac
    }
}

/// The mathematical content of a [`NaiveDateTime`].
pub ghost struct DateTimeRep {
    /// The calendar day.
    pub date: DateRep,
    /// The time of day.
    pub time: TimeRep,
}

/// The second of `v`, counted from the Unix epoch; negative before 1970.
/// Leap-second fractions are not counted.
pub open spec fn spec_datetime_secs(v: DateTimeRep) -> int {
    spec_days_from_epoch(v.date) * 86400 + v.time.secs
}

/// Whether a count of seconds from the Unix epoch falls on a representable
/// date.
pub open spec fn spec_secs_in_range(s: int) -> bool {
    spec_min_days() * 86400 <= s <= spec_max_days() * 86400 + 86399
}

/// The representable day numbers, and so the epoch-second range, are bounded.
pub proof fn lemma_valid_days_bounds(y: int, o: int)
    requires
        valid_year_ordinal(y, o),
    ensures
        spec_min_days() <= days_before_year(y) + o - 1 - days_before_year(1970) <= spec_max_days(),
        -97_000_000 <= days_before_year(y) + o - 1 - days_before_year(1970) <= 97_000_000,
{
    lemma_days_before_year_bounds(MIN_YEAR as int, 1970);
    lemma_days_before_year_bounds(1970, MAX_YEAR as int + 1);
    lemma_days_before_year_bounds(MIN_YEAR as int, y);
    lemma_days_before_year_succ(y);
    lemma_days_before_year_bounds(y + 1, MAX_YEAR as int + 1);
}

/// A date and a time of day, without a time zone.
#[derive(Debug, Clone, Copy, PartialEq, Eq, Hash, Structural)]
pub struct NaiveDateTime {
    date: NaiveDate,
    time: NaiveTime,
}

impl View for NaiveDateTime {
    type V = DateTimeRep;

    closed spec fn view(&self) -> DateTimeRep {
        DateTimeRep { date: self.date@, time: self.time@ }
    }
}

impl NaiveDateTime {
    /// Every constructed date and time pairs a well-formed date with a
    /// well-formed time of day; the library maintains this as a type
    /// invariant.
    #[verifier::type_invariant]
    pub open spec fn wf(self) -> bool {
        valid_year_ordinal(self@.date.year, self@.date.ordinal) && 0 <= self@.time.secs < 86400
            && 0 <= self@.time.frac < 2_000_000_000
    }

    /// Combines a date and a time of day.
    pub fn new(date: NaiveDate, time: NaiveTime) -> (r: NaiveDateTime)
        ensures
            r@ == (DateTimeRep { date: date@, time: time@ }),
    {
        proof {
            use_type_invariant(&date);
            use_type_invariant(&time);
        }
        NaiveDateTime { date, time }
    }

    /// Makes a new date and time from a count of non-leap seconds since the
    /// Unix epoch ("UNIX timestamp") and a count of nanoseconds since the
    /// last whole second, which may reach 1 999 999 999 for a leap second.
    ///
    /// Fails with an invalid-time error when the nanosecond count is out of
    /// range, and with an invalid-date-time error when the second count falls
    /// outside the representable calendar.
    pub fn from_timestamp(secs: i64, nsecs: u32) -> (r: Result<NaiveDateTime, ChronoError>)
        ensures
            nsecs >= 2_000_000_000 ==> (r matches Err(e) && e.spec_kind()
                == ChronoErrorKind::InvalidTime),
            nsecs < 2_000_000_000 && !(spec_min_days() <= secs as int / 86400 <= spec_max_days())
                ==> (r matches Err(e) && e.spec_kind() == ChronoErrorKind::InvalidDateTime),
            nsecs < 2_000_000_000 && spec_min_days() <= secs as int / 86400 <= spec_max_days() ==> (
            r matches Ok(dt) && spec_days_from_epoch(dt@.date) == secs as int / 86400
                && dt@.time.secs == secs as int % 86400 && dt@.time.frac == nsecs as int),
    {
        if nsecs >= 2_000_000_000 {
            return Err(ChronoError::new(ChronoErrorKind::InvalidTime));
        }
        let mut days: i64 = secs / 86400;
        let mut rem: i64 = secs % 86400;
        if rem < 0 {
            days = days - 1;
            rem = rem + 86400;
        }
        match NaiveDate::from_days_from_epoch(days) {
            Ok(date) => {
                proof {
                    use_type_invariant(&date);
                }
                Ok(NaiveDateTime { date, time: NaiveTime { secs: rem as u32, frac: nsecs } })
            },
            Err(_) => Err(ChronoError::new(ChronoErrorKind::InvalidDateTime)),
        }
    }

    /// The calendar day of this value.
    pub fn date(&self) -> (r: NaiveDate)
        ensures
            r@ == self@.date,
    {
        self.date
    }

    /// The time of day of this value.
    pub fn time(&self) -> (r: NaiveTime)
        ensures
            r@ == self@.time,
    {
        self.time
    }

    /// The count of non-leap seconds since the Unix epoch; negative before
    /// 1970.
    pub fn timestamp(&self) -> (r: i64)
        ensures
            r as int == spec_datetime_secs(self@),
    {
        proof {
            use_type_invariant(&self.date);
            use_type_invariant(&self.time);
            lemma_valid_days_bounds(self@.date.year, self@.date.ordinal);
        }
        self.date.days_from_epoch() * 86400 + self.time.num_seconds_from_midnight() as i64
    }

    /// The value lying `off` seconds before this one on the time line, with
    /// the nanosecond fraction kept.
    ///
    /// Fails with an invalid-date-time error exactly when the shifted value
    /// falls outside the representable calendar.
    pub fn checked_sub_offset_secs(self, off: i32) -> (r: Result<NaiveDateTime, ChronoError>)
        requires
            -86400 < off < 86400,
        ensures
            r is Ok <==> spec_secs_in_range(spec_datetime_secs(self@) - off),
            r matches Ok(dt) ==> spec_datetime_secs(dt@) == spec_datetime_secs(self@) - off
                && dt@.time.frac == self@.time.frac,
            r matches Err(e) ==> e.spec_kind() == ChronoErrorKind::InvalidDateTime,
    {
        proof {
            use_type_invariant(&self.date);
            use_type_invariant(&self.time);
            lemma_valid_days_bounds(self@.date.year, self@.date.ordinal);
        }
        let t: i64 = self.time.secs as i64 - off as i64;
        if t < 0 {
            match self.date.pred() {
                Ok(date) => {
                    proof {
                        use_type_invariant(&date);
                    }
                    Ok(
                        NaiveDateTime {
                            date,
                            time: NaiveTime { secs: (t + 86400) as u32, frac: self.time.frac },
                        },
                    )
                },
                Err(_) => Err(ChronoError::new(ChronoErrorKind::InvalidDateTime)),
            }
        } else if t >= 86400 {
            match self.date.succ() {
                Ok(date) => {
                    proof {
                        use_type_invariant(&date);
                    }
                    Ok(
                        NaiveDateTime {
                            date,
                            time: NaiveTime { secs: (t - 86400) as u32, frac: self.time.frac },
                        },
                    )
                },
                Err(_) => Err(ChronoError::new(ChronoErrorKind::InvalidDateTime)),
            }
        } else {
            Ok(
                NaiveDateTime {
                    date: self.date,
                    time: NaiveTime { secs: t as u32, frac: self.time.frac },
                },
            )
        }
    }

    /// The value lying `off` seconds after this one on the time line, with
    /// the nanosecond fraction kept.
    ///
    /// Fails with an invalid-date-time error exactly when the shifted value
    /// falls outside the representable calendar.
    pub fn checked_add_offset_secs(self, off: i32) -> (r: Result<NaiveDateTime, ChronoError>)
        requires
            -86400 < off < 86400,
        ensures
            r is Ok <==> spec_secs_in_range(spec_datetime_secs(self@) + off),
            r matches Ok(dt) ==> spec_datetime_secs(dt@) == spec_datetime_secs(self@) + off
                && dt@.time.frac == self@.time.frac,
            r matches Err(e) ==> e.spec_kind() == ChronoErrorKind::InvalidDateTime,
    {
        self.checked_sub_offset_secs(-off)
    }
}

/// Days of the year before `month`; executable counterpart of
/// [`days_before_month`].
pub fn days_before_month_x(year: i32, month: u32) -> (r: u32)
    requires
        MIN_YEAR <= year <= MAX_YEAR,
        1 <= month <= 12,
    ensures
        r == days_before_month(year as int, month as int),
        r <= 372,
{
    let mut m: u32 = 1;
    let mut acc: u32 = 0;
    while m < month
        invariant
            MIN_YEAR <= year <= MAX_YEAR,
            1 <= m <= month <= 12,
            acc == days_before_month(year as int, m as int),
            acc <= 31 * m,
        decreases month - m,
    {
        acc = acc + days_in_month_x(year, m);
        m = m + 1;
    }
    acc
}

} // verus!
