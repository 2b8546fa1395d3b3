//! The time zone capability, which relates local time to UTC.
//!
//! A zone supplies four abstract resolution primitives, modelled here by four
//! specification functions, and inherits about ten convenience constructors
//! derived once from those primitives.  [`LocalResult`] carries the outcome
//! of resolving a civil-time value, which can be unique or ambiguous.

use vstd::prelude::*;
use vstd::pervasive::unreached;

use crate::date::Date;
use crate::datetime::DateTime;
use crate::error::ChronoError;
use crate::error::ChronoErrorKind;
use crate::naive::DateRep;
use crate::naive::DateTimeRep;
use crate::naive::NaiveDate;
use crate::naive::NaiveDateTime;
use crate::naive::NaiveTime;
use crate::naive::Weekday;
use crate::naive::ordinal_of_ymd;
use crate::naive::spec_datetime_secs;
use crate::naive::spec_days_from_epoch;
use crate::naive::spec_days_in_range;
use crate::naive::spec_isoywd_day;
use crate::naive::spec_iso_weeks_in_year;
use crate::naive::spec_max_days;
use crate::naive::spec_min_days;
use crate::naive::spec_secs_in_range;
use crate::naive::valid_hms;
use crate::naive::valid_ymd;
use crate::naive::valid_year_ordinal;
use crate::naive::MAX_YEAR;
use crate::naive::MIN_YEAR;

mod fixed;
mod utc;

pub use self::fixed::FixedOffset;
pub use self::utc::Utc;

verus! {

/// The conversion result from the local time to the timezone-aware datetime
/// types.
#[derive(Debug, Clone, Copy, PartialEq, Eq, Hash)]
pub enum LocalResult<T> {
    /// Given local time representation has a single unique result.
    Single(T),
    /// Given local time representation has multiple results and thus
    /// ambiguous.  This can occur when, for example, the negative timezone
    /// transition.  The first value is the earlier, the second the later of
    /// the two candidates.
    Ambiguous(T, T),
}

impl<T> LocalResult<T> {
    /// Returns `Some` only when the conversion result is unique, or `None`
    /// otherwise.
    pub fn single(self) -> (r: Option<T>)
        ensures
            (self matches LocalResult::Single(t) ==> r == Some(t)),
            (self is Ambiguous ==> r is None),
    {
        match self {
            LocalResult::Single(t) => Some(t),
            _ => None,
        }
    }

    /// Returns `Some` for the earliest possible conversion result.
    pub fn earliest(self) -> (r: Option<T>)
        ensures
            (self matches LocalResult::Single(t) ==> r == Some(t)),
            (self matches LocalResult::Ambiguous(a, b) ==> r == Some(a)),
    {
        match self {
            LocalResult::Single(t) | LocalResult::Ambiguous(t, _) => Some(t),
        }
    }

    /// Returns `Some` for the latest possible conversion result.
    pub fn latest(self) -> (r: Option<T>)
        ensures
            (self matches LocalResult::Single(t) ==> r == Some(t)),
            (self matches LocalResult::Ambiguous(a, b) ==> r == Some(b)),
    {
        match self {
            LocalResult::Single(t) | LocalResult::Ambiguous(_, t) => Some(t),
        }
    }

    /// Maps a `LocalResult<T>` into `LocalResult<U>` with given function,
    /// preserving the variant shape.
    pub fn map<U, F: Fn(T) -> U>(self, f: F) -> (r: LocalResult<U>)
        requires
            (self matches LocalResult::Single(t) ==> call_requires(f, (t,))),
            (self matches LocalResult::Ambiguous(a, b) ==> call_requires(f, (a,))
                && call_requires(f, (b,))),
        ensures
            (self matches LocalResult::Single(t) ==> r matches LocalResult::Single(u)
                && call_ensures(f, (t,), u)),
            (self matches LocalResult::Ambiguous(a, b) ==> r matches LocalResult::Ambiguous(x, y)
                && call_ensures(f, (a,), x) && call_ensures(f, (b,), y)),
    {
        match self {
            LocalResult::Single(v) => LocalResult::Single(f(v)),
            LocalResult::Ambiguous(min, max) => LocalResult::Ambiguous(f(min), f(max)),
        }
    }

    /// Returns the single unique conversion result.
    ///
    /// Calling this on an ambiguous result is a programmer error; it is
    /// therefore excluded by contract, and the library never does so.
    pub fn unwrap(self) -> (t: T)
        requires
            self is Single,
        ensures
            self == LocalResult::Single(t),
    {
        match self {
            LocalResult::Single(t) => t,
            LocalResult::Ambiguous(_, _) => unreached(),
        }
    }
}

/// What combining the single date `d` with a valid time of day (`secs`
/// seconds since local midnight, fraction `frac`) yields: the instant
/// shifted to UTC and wrapped as a unique result, or an invalid-date-time
/// error exactly when that instant leaves the representable calendar.
pub open spec fn spec_single_and_time_outcome<Tz: TimeZone>(
    d: Date<Tz>,
    secs: int,
    frac: int,
    r: Result<LocalResult<DateTime<Tz>>, ChronoError>,
) -> bool {
    let utc = crate::date::spec_local_at_time_utc_secs(
        d.date,
        crate::naive::TimeRep { secs, frac },
        d.offset.fix_spec(),
    );
    &&& (r is Ok <==> spec_secs_in_range(utc))
    &&& (r matches Ok(lr) ==> lr matches LocalResult::Single(dt) && dt.offset == d.offset
        && spec_datetime_secs(dt.datetime@) == utc && dt.datetime@.time.frac == frac)
    &&& (r matches Err(e) ==> e.spec_kind() == ChronoErrorKind::InvalidDateTime)
}

impl<Tz: TimeZone> LocalResult<Date<Tz>> {
    /// Makes a new `DateTime` from the current date and given `NaiveTime`.
    /// The offset in the current date is preserved.
    ///
    /// An ambiguous date short-circuits to an ambiguous-date error without
    /// inspecting the time argument.
    pub fn and_time(self, time: NaiveTime) -> (r: Result<LocalResult<DateTime<Tz>>, ChronoError>)
        ensures
            self is Ambiguous ==> (r matches Err(e) && e.spec_kind()
                == ChronoErrorKind::AmbiguousDate),
            self matches LocalResult::Single(d) ==> spec_single_and_time_outcome(
                d,
                time@.secs,
                time@.frac,
                r,
            ),
    {
        match self {
            LocalResult::Single(d) => match d.and_time(time) {
                Ok(dt) => Ok(LocalResult::Single(dt)),
                Err(e) => Err(e),
            },
            _ => Err(ChronoError::new(ChronoErrorKind::AmbiguousDate)),
        }
    }

    /// Makes a new `DateTime` from the current date, hour, minute and
    /// second.  The offset in the current date is preserved.
    ///
    /// An ambiguous date short-circuits to an ambiguous-date error without
    /// inspecting the time arguments.
    pub fn and_hms(self, hour: u32, min: u32, sec: u32) -> (r: Result<
        LocalResult<DateTime<Tz>>,
        ChronoError,
    >)
        ensures
            self is Ambiguous ==> (r matches Err(e) && e.spec_kind()
                == ChronoErrorKind::AmbiguousDate),
            self is Single && !valid_hms(hour as int, min as int, sec as int) ==> (r matches Err(e)
                && e.spec_kind() == ChronoErrorKind::InvalidTime),
            self matches LocalResult::Single(d) ==> (valid_hms(
                hour as int,
                min as int,
                sec as int,
            ) ==> spec_single_and_time_outcome(
                d,
                crate::naive::spec_secs_of_hms(hour as int, min as int, sec as int),
                0,
                r,
            )),
    {
        match self {
            LocalResult::Single(d) => match d.and_hms(hour, min, sec) {
                Ok(dt) => Ok(LocalResult::Single(dt)),
                Err(e) => Err(e),
            },
            _ => Err(ChronoError::new(ChronoErrorKind::AmbiguousDate)),
        }
    }

    /// Makes a new `DateTime` from the current date, hour, minute, second
    /// and millisecond.  The millisecond part can exceed 1,000 in order to
    /// represent the leap second.  The offset in the current date is
    /// preserved.
    ///
    /// An ambiguous date short-circuits to an ambiguous-date error without
    /// inspecting the time arguments.
    pub fn and_hms_milli(self, hour: u32, min: u32, sec: u32, milli: u32) -> (r: Result<
        LocalResult<DateTime<Tz>>,
        ChronoError,
    >)
        ensures
            self is Ambiguous ==> (r matches Err(e) && e.spec_kind()
                == ChronoErrorKind::AmbiguousDate),
            self is Single && !(valid_hms(hour as int, min as int, sec as int) && milli < 2000)
                ==> (r matches Err(e) && e.spec_kind() == ChronoErrorKind::InvalidTime),
            self matches LocalResult::Single(d) ==> (valid_hms(
                hour as int,
                min as int,
                sec as int,
            ) && milli < 2000 ==> spec_single_and_time_outcome(
                d,
                crate::naive::spec_secs_of_hms(hour as int, min as int, sec as int),
                milli as int * 1_000_000,
                r,
            )),
    {
        match self {
            LocalResult::Single(d) => match d.and_hms_milli(hour, min, sec, milli) {
                Ok(dt) => Ok(LocalResult::Single(dt)),
                Err(e) => Err(e),
            },
            _ => Err(ChronoError::new(ChronoErrorKind::AmbiguousDate)),
        }
    }

    /// Makes a new `DateTime` from the current date, hour, minute, second
    /// and microsecond.  The microsecond part can exceed 1,000,000 in order
    /// to represent the leap second.  The offset in the current date is
    /// preserved.
    ///
    /// An ambiguous date short-circuits to an ambiguous-date error without
    /// inspecting the time arguments.
    pub fn and_hms_micro(self, hour: u32, min: u32, sec: u32, micro: u32) -> (r: Result<
        LocalResult<DateTime<Tz>>,
        ChronoError,
    >)
        ensures
            self is Ambiguous ==> (r matches Err(e) && e.spec_kind()
                == ChronoErrorKind::AmbiguousDate),
            self is Single && !(valid_hms(hour as int, min as int, sec as int) && micro < 2_000_000)
                ==> (r matches Err(e) && e.spec_kind() == ChronoErrorKind::InvalidTime),
            self matches LocalResult::Single(d) ==> (valid_hms(
                hour as int,
                min as int,
                sec as int,
            ) && micro < 2_000_000 ==> spec_single_and_time_outcome(
                d,
                crate::naive::spec_secs_of_hms(hour as int, min as int, sec as int),
                micro as int * 1000,
                r,
            )),
    {
        match self {
            LocalResult::Single(d) => match d.and_hms_micro(hour, min, sec, micro) {
                Ok(dt) => Ok(LocalResult::Single(dt)),
                Err(e) => Err(e),
            },
            _ => Err(ChronoError::new(ChronoErrorKind::AmbiguousDate)),
        }
    }

    /// Makes a new `DateTime` from the current date, hour, minute, second
    /// and nanosecond.  The nanosecond part can exceed 1,000,000,000 in
    /// order to represent the leap second.  The offset in the current date
    /// is preserved.
    ///
    /// An ambiguous date short-circuits to an ambiguous-date error without
    /// inspecting the time arguments.
    pub fn and_hms_nano(self, hour: u32, min: u32, sec: u32, nano: u32) -> (r: Result<
        LocalResult<DateTime<Tz>>,
        ChronoError,
    >)
        ensures
            self is Ambiguous ==> (r matches Err(e) && e.spec_kind()
                == ChronoErrorKind::AmbiguousDate),
            self is Single && !(valid_hms(hour as int, min as int, sec as int) && nano
                < 2_000_000_000) ==> (r matches Err(e) && e.spec_kind()
                == ChronoErrorKind::InvalidTime),
            self matches LocalResult::Single(d) ==> (valid_hms(
                hour as int,
                min as int,
                sec as int,
            ) && nano < 2_000_000_000 ==> spec_single_and_time_outcome(
                d,
                crate::naive::spec_secs_of_hms(hour as int, min as int, sec as int),
                nano as int,
                r,
            )),
    {
        match self {
            LocalResult::Single(d) => match d.and_hms_nano(hour, min, sec, nano) {
                Ok(dt) => Ok(LocalResult::Single(dt)),
                Err(e) => Err(e),
            },
            _ => Err(ChronoError::new(ChronoErrorKind::AmbiguousDate)),
        }
    }
}

/// For any zone implementing [`FixedTimeZone`], resolving a local calendar
/// day and converting the result back from UTC round-trips to the same
/// calendar value: `from_local_date` keeps the naive day it resolves
/// (its result `mid` carries `d` itself), and `from_utc_date_fixed` keeps
/// the naive day it is given, so the day that comes back is the day that
/// went in.  No ambiguity is possible on this path.
pub proof fn lemma_fixed_timezone_date_roundtrip<Tz: FixedTimeZone>(
    d: NaiveDate,
    mid: Date<Tz>,
    back: Date<Tz>,
)
    requires
        mid.date == d,
        back.date == mid.date,
    ensures
        back.date == d,
{
}

/// The offset from the local time to UTC.
pub trait Offset: Sized + Copy {
    /// The offset in seconds east of UTC, as this zone state resolves it.
    spec fn fix_spec(&self) -> int;

    /// Returns the fixed offset from UTC to the local time stored.
    fn fix(&self) -> (r: FixedOffset)
        ensures
            r@ == self.fix_spec(),
    ;
}

/// The time zone.
///
/// The methods here are the primary constructors for the [`Date`] and
/// [`DateTime`] types.  A zone implements the four abstract resolvers and
/// the four specification functions that model them; everything else is
/// derived.
pub trait TimeZone: Sized + Clone {
    /// An associated offset type.  This type is used to store the actual
    /// offset in date and time types.  The original `TimeZone` value can be
    /// recovered via `TimeZone::from_offset`.
    type Offset: Offset;

    /// The model of local-date resolution: the offset this zone assigns to
    /// the given local calendar day, or the error it reports for it.
    spec fn spec_local_date_offset(&self, local: DateRep) -> Result<Self::Offset, ChronoError>;

    /// The model of local-date-time resolution.
    spec fn spec_local_datetime_offset(&self, local: DateTimeRep) -> Result<
        Self::Offset,
        ChronoError,
    >;

    /// The model of UTC-date resolution, which never fails: UTC is
    /// continuous.
    spec fn spec_utc_date_offset(&self, utc: DateRep) -> Self::Offset;

    /// The model of UTC-date-time resolution, which never fails.
    spec fn spec_utc_datetime_offset(&self, utc: DateTimeRep) -> Self::Offset;

    /// Reconstructs the time zone from the offset.
    fn from_offset(offset: &Self::Offset) -> Self;

    /// Creates the offset(s) for given local `NaiveDate` if possible.
    fn offset_from_local_date(&self, local: &NaiveDate) -> (r: Result<Self::Offset, ChronoError>)
        ensures
            r == self.spec_local_date_offset(local@),
    ;

    /// Creates the offset(s) for given local `NaiveDateTime` if possible.
    fn offset_from_local_datetime(&self, local: &NaiveDateTime) -> (r: Result<
        Self::Offset,
        ChronoError,
    >)
        ensures
            r == self.spec_local_datetime_offset(local@),
    ;

    /// Creates the offset for given UTC `NaiveDate`.  This cannot fail.
    fn offset_from_utc_date(&self, utc: &NaiveDate) -> (r: Result<Self::Offset, ChronoError>)
        ensures
            r matches Ok(o) && o == self.spec_utc_date_offset(utc@),
    ;

    /// Creates the offset for given UTC `NaiveDateTime`.  This cannot fail.
    fn offset_from_utc_datetime(&self, utc: &NaiveDateTime) -> (r: Result<
        Self::Offset,
        ChronoError,
    >)
        ensures
            r matches Ok(o) && o == self.spec_utc_datetime_offset(utc@),
    ;

    /// Makes a new `Date` from year, month, day and the current time zone.
    /// This assumes the proleptic Gregorian calendar, with the year 0 being
    /// 1 BCE.
    ///
    /// Fails with an invalid-date error on an out-of-range date, invalid
    /// month and/or day; otherwise resolves the day against this zone.
    fn ymd(&self, year: i32, month: u32, day: u32) -> (r: Result<Date<Self>, ChronoError>)
        ensures
            !valid_ymd(year as int, month as int, day as int) ==> (r matches Err(e) && e.spec_kind()
                == ChronoErrorKind::InvalidDate),
            valid_ymd(year as int, month as int, day as int) ==> (match self.spec_local_date_offset(
                DateRep {
                    year: year as int,
                    ordinal: ordinal_of_ymd(year as int, month as int, day as int),
                },
            ) {
                Ok(o) => r matches Ok(d) && d.date@ == (DateRep {
                    year: year as int,
                    ordinal: ordinal_of_ymd(year as int, month as int, day as int),
                }) && d.offset == o,
                Err(e) => r matches Err(e2) && e2 == e,
            }),
    {
        let d = NaiveDate::from_ymd(year, month, day)?;
        self.from_local_date(&d)
    }

    /// Makes a new `Date` from year, day of year (DOY or "ordinal") and the
    /// current time zone.
    ///
    /// Fails with an invalid-date error on an out-of-range date and/or
    /// invalid DOY; otherwise resolves the day against this zone.
    fn yo(&self, year: i32, ordinal: u32) -> (r: Result<Date<Self>, ChronoError>)
        ensures
            !valid_year_ordinal(year as int, ordinal as int) ==> (r matches Err(e) && e.spec_kind()
                == ChronoErrorKind::InvalidDate),
            valid_year_ordinal(year as int, ordinal as int) ==> (match self.spec_local_date_offset(
                DateRep { year: year as int, ordinal: ordinal as int },
            ) {
                Ok(o) => r matches Ok(d) && d.date@ == (DateRep {
                    year: year as int,
                    ordinal: ordinal as int,
                }) && d.offset == o,
                Err(e) => r matches Err(e2) && e2 == e,
            }),
    {
        let d = NaiveDate::from_yo(year, ordinal)?;
        self.from_local_date(&d)
    }

    /// Makes a new `Date` from ISO week date (year and week number), day of
    /// the week (DOW) and the current time zone.  The resulting `Date` may
    /// have a different year from the input year.
    ///
    /// Fails with an invalid-date error on an out-of-range date and/or
    /// invalid week number; otherwise resolves the day against this zone.
    fn isoywd(&self, year: i32, week: u32, weekday: Weekday) -> (r: Result<
        Date<Self>,
        ChronoError,
    >)
        ensures
            !spec_valid_isoywd(year as int, week as int, weekday.spec_num_days_from_monday()) ==> (
            r matches Err(e) && e.spec_kind() == ChronoErrorKind::InvalidDate),
            r matches Ok(d) ==> spec_valid_isoywd(
                year as int,
                week as int,
                weekday.spec_num_days_from_monday(),
            ) && spec_days_from_epoch(d.date@) == spec_isoywd_day(
                year as int,
                week as int,
                weekday.spec_num_days_from_monday(),
            ) && self.spec_local_date_offset(d.date@) == Ok::<Self::Offset, ChronoError>(
                d.offset,
            ),
            spec_valid_isoywd(year as int, week as int, weekday.spec_num_days_from_monday()) && (
            forall|rep: DateRep| #[trigger] self.spec_local_date_offset(rep) is Ok) ==> r is Ok,
    {
        let d = NaiveDate::from_isoywd(year, week, weekday)?;
        self.from_local_date(&d)
    }

    /// Makes a new `DateTime` from the number of non-leap seconds since
    /// January 1, 1970 0:00:00 UTC (aka "UNIX timestamp") and the number of
    /// nanoseconds since the last whole non-leap second.
    ///
    /// Fails on an out-of-range number of seconds and/or invalid nanosecond,
    /// otherwise always succeeds: UTC resolution cannot branch.
    fn timestamp(&self, secs: i64, nsecs: u32) -> (r: Result<DateTime<Self>, ChronoError>)
        ensures
            nsecs >= 2_000_000_000 ==> (r matches Err(e) && e.spec_kind()
                == ChronoErrorKind::InvalidTime),
            nsecs < 2_000_000_000 && !spec_days_in_range(secs as int / 86400) ==> (r matches Err(e)
                && e.spec_kind() == ChronoErrorKind::InvalidDateTime),
            nsecs < 2_000_000_000 && spec_days_in_range(secs as int / 86400) ==> (r matches Ok(dt)
                && spec_days_from_epoch(dt.datetime@.date) == secs as int / 86400
                && dt.datetime@.time.secs == secs as int % 86400
                && dt.datetime@.time.frac == nsecs as int && dt.offset
                == self.spec_utc_datetime_offset(dt.datetime@)),
    {
        let dt = NaiveDateTime::from_timestamp(secs, nsecs)?;
        self.from_utc_datetime(&dt)
    }

    /// Makes a new `DateTime` from the number of non-leap milliseconds since
    /// January 1, 1970 0:00:00 UTC.  The millisecond count is normalized
    /// with floor division: the sub-second part is always non-negative.
    ///
    /// Fails on an out-of-range number of milliseconds.
    fn timestamp_millis(&self, millis: i64) -> (r: Result<DateTime<Self>, ChronoError>)
        ensures
            !spec_days_in_range(millis as int / 1000 / 86400) ==> (r matches Err(e)
                && e.spec_kind() == ChronoErrorKind::InvalidDateTime),
            spec_days_in_range(millis as int / 1000 / 86400) ==> (r matches Ok(dt)
                && spec_days_from_epoch(dt.datetime@.date) == millis as int / 1000 / 86400
                && dt.datetime@.time.secs == millis as int / 1000 % 86400
                && dt.datetime@.time.frac == (millis as int % 1000) * 1_000_000
                && dt.offset == self.spec_utc_datetime_offset(dt.datetime@)),
    {
        let mut secs: i64 = millis / 1000;
        let mut subsec: i64 = millis % 1000;
        if subsec < 0 {
            secs = secs - 1;
            subsec = subsec + 1000;
        }
        self.timestamp(secs, (subsec as u32) * 1_000_000)
    }

    /// Makes a new `DateTime` from the number of non-leap nanoseconds since
    /// January 1, 1970 0:00:00 UTC.  The nanosecond count is normalized with
    /// floor division.
    ///
    /// Unlike `timestamp_millis`, this never fails: every 64-bit signed
    /// count of nanoseconds lies within the representable calendar.
    fn timestamp_nanos(&self, nanos: i64) -> (r: Result<DateTime<Self>, ChronoError>)
        ensures
            r matches Ok(dt) && spec_days_from_epoch(dt.datetime@.date) == nanos as int
                / 1_000_000_000 / 86400 && dt.datetime@.time.secs == nanos as int
                / 1_000_000_000 % 86400 && dt.datetime@.time.frac == nanos as int
                % 1_000_000_000 && dt.offset == self.spec_utc_datetime_offset(
                dt.datetime@,
            ),
    {
        proof {
            crate::naive::lemma_days_before_year_bounds(MIN_YEAR as int, 1970);
            crate::naive::lemma_days_before_year_bounds(1970, MAX_YEAR as int + 1);
        }
        let mut secs: i64 = nanos / 1_000_000_000;
        let mut subsec: i64 = nanos % 1_000_000_000;
        if subsec < 0 {
            secs = secs - 1;
            subsec = subsec + 1_000_000_000;
        }
        self.timestamp(secs, subsec as u32)
    }

    /// Converts the local `NaiveDate` to the timezone-aware `Date` if
    /// possible: resolves the day against this zone and pairs the two.
    fn from_local_date(&self, local: &NaiveDate) -> (r: Result<Date<Self>, ChronoError>)
        ensures
            (match self.spec_local_date_offset(local@) {
                Ok(o) => r matches Ok(d) && d.date == *local && d.offset == o,
                Err(e) => r matches Err(e2) && e2 == e,
            }),
    {
        let offset = self.offset_from_local_date(local)?;
        Ok(Date { date: *local, offset })
    }

    /// Converts the local `NaiveDateTime` to the timezone-aware `DateTime`
    /// if possible: the UTC instant is the local instant minus the resolved
    /// fixed offset.
    ///
    /// Forwards the resolver's error; fails with an invalid-date-time error
    /// when the shifted instant leaves the representable calendar.
    fn from_local_datetime(&self, local: &NaiveDateTime) -> (r: Result<DateTime<Self>, ChronoError>)
        ensures
            self.spec_local_datetime_offset(local@) matches Err(e) ==> (r matches Err(e2) && e2
                == e),
            self.spec_local_datetime_offset(local@) matches Ok(o) ==> ((r is Ok
                <==> spec_secs_in_range(spec_datetime_secs(local@) - o.fix_spec())) && (
            r matches Ok(dt) ==> dt.offset == o && spec_datetime_secs(dt.datetime@)
                == spec_datetime_secs(local@) - o.fix_spec() && dt.datetime@.time.frac
                == local@.time.frac) && (r matches Err(e) ==> e.spec_kind()
                == ChronoErrorKind::InvalidDateTime)),
    {
        let offset = self.offset_from_local_datetime(local)?;
        let fix = offset.fix();
        let shifted = local.checked_sub_offset_secs(fix.local_minus_utc())?;
        Ok(DateTime { datetime: shifted, offset })
    }

    /// Converts the UTC `NaiveDate` to the local time.  The UTC is
    /// continuous and thus this cannot fail (but can give the duplicate
    /// local time).
    fn from_utc_date(&self, utc: &NaiveDate) -> (r: Result<Date<Self>, ChronoError>)
        ensures
            r matches Ok(d) && d.date == *utc && d.offset == self.spec_utc_date_offset(
                utc@,
            ),
    {
        let offset = self.offset_from_utc_date(utc)?;
        Ok(Date { date: *utc, offset })
    }

    /// Converts the UTC `NaiveDateTime` to the local time.  The UTC is
    /// continuous and thus this cannot fail (but can give the duplicate
    /// local time).
    fn from_utc_datetime(&self, utc: &NaiveDateTime) -> (r: Result<DateTime<Self>, ChronoError>)
        ensures
            r matches Ok(dt) && dt.datetime == *utc && dt.offset
                == self.spec_utc_datetime_offset(utc@),
    {
        let offset = self.offset_from_utc_datetime(utc)?;
        Ok(DateTime { datetime: *utc, offset })
    }
}

/// A valid ISO week date whose day falls inside the representable calendar.
pub open spec fn spec_valid_isoywd(y: int, w: int, wd: int) -> bool {
    &&& MIN_YEAR as int <= y <= MAX_YEAR as int
    &&& 1 <= w <= spec_iso_weeks_in_year(y)
    &&& spec_min_days() <= spec_isoywd_day(y, w, wd) <= spec_max_days()
}

/// A time zone that is fixed: its UTC-to-local mapping is total and
/// system-independent, so the UTC conversions need no `Result`.
pub trait FixedTimeZone: TimeZone {
    /// Creates the offset for given UTC `NaiveDate`.  This cannot fail.
    fn offset_from_utc_date_fixed(&self, utc: &NaiveDate) -> (r: Self::Offset)
        ensures
            r == self.spec_utc_date_offset(utc@),
    ;

    /// Creates the offset for given UTC `NaiveDateTime`.  This cannot fail.
    fn offset_from_utc_datetime_fixed(&self, utc: &NaiveDateTime) -> (r: Self::Offset)
        ensures
            r == self.spec_utc_datetime_offset(utc@),
    ;

    /// Converts the UTC `NaiveDate` to the local time, keeping the calendar
    /// value.
    fn from_utc_date_fixed(&self, utc: &NaiveDate) -> (r: Date<Self>)
        ensures
            r.date == *utc,
            r.offset == self.spec_utc_date_offset(utc@),
    {
        Date { date: *utc, offset: self.offset_from_utc_date_fixed(utc) }
    }

    /// Converts the UTC `NaiveDateTime` to the local time, keeping the
    /// instant.
    fn from_utc_datetime_fixed(&self, utc: &NaiveDateTime) -> (r: DateTime<Self>)
        ensures
            r.datetime == *utc,
            r.offset == self.spec_utc_datetime_offset(utc@),
    {
        DateTime { datetime: *utc, offset: self.offset_from_utc_datetime_fixed(utc) }
    }
}

} // verus!
