//! A timezone-aware calendar day.

use vstd::prelude::*;

use crate::datetime::DateTime;
use crate::error::ChronoError;
use crate::error::ChronoErrorKind;
use crate::naive::DateTimeRep;
use crate::naive::NaiveDate;
use crate::naive::NaiveDateTime;
use crate::naive::NaiveTime;
use crate::naive::TimeRep;
use crate::naive::spec_datetime_secs;
use crate::naive::spec_secs_in_range;
use crate::naive::spec_secs_of_hms;
use crate::naive::valid_hms;
use crate::offset::Offset;
use crate::offset::TimeZone;

verus! {

/// The UTC instant a local day and time name under a fixed offset: the local
/// seconds minus the offset.
pub open spec fn spec_local_at_time_utc_secs(date: NaiveDate, time: TimeRep, off: int) -> int {
    spec_datetime_secs(DateTimeRep { date: date@, time }) - off
}

/// A calendar day paired with the offset its zone resolved for it.
///
/// The naive day is kept exactly as the zone constructors received it; the
/// offset only propagates to the `DateTime` values built from this day.
#[derive(Clone, Copy)]
pub struct Date<Tz: TimeZone> {
    /// The naive calendar day carried by this value.
    pub date: NaiveDate,
    /// The resolved offset carried by this value.
    pub offset: Tz::Offset,
}

impl<Tz: TimeZone> Date<Tz> {
    /// Makes a new `Date` with given UTC date and offset.  The local date
    /// should be constructed via the `TimeZone` trait.
    pub fn from_utc(date: NaiveDate, offset: Tz::Offset) -> (r: Self)
        ensures
            r.date == date,
            r.offset == offset,
    {
        Date { date, offset }
    }

    /// The naive day in the zone's local time.
    pub fn naive_local(&self) -> (r: NaiveDate)
        ensures
            r == self.date,
    {
        self.date
    }

    /// Makes a new `DateTime` from this date and a given time of day.  The
    /// offset in the current date is preserved; the stored UTC instant is
    /// the named local instant minus the offset.
    ///
    /// Fails with an invalid-date-time error exactly when that instant
    /// leaves the representable calendar.
    pub fn and_time(self, time: NaiveTime) -> (r: Result<DateTime<Tz>, ChronoError>)
        ensures
            r is Ok <==> spec_secs_in_range(
                spec_local_at_time_utc_secs(self.date, time@, self.offset.fix_spec()),
            ),
            r matches Ok(dt) ==> dt.offset == self.offset && spec_datetime_secs(
                dt.datetime@,
            ) == spec_local_at_time_utc_secs(
                self.date,
                time@,
                self.offset.fix_spec(),
            ) && dt.datetime@.time.frac == time@.frac,
            r matches Err(e) ==> e.spec_kind() == ChronoErrorKind::InvalidDateTime,
    {
        let local = NaiveDateTime::new(self.date, time);
        let fix = self.offset.fix();
        let utc = match local.checked_sub_offset_secs(fix.local_minus_utc()) {
            Ok(utc) => utc,
            Err(e) => {
                return Err(e);
            },
        };
        Ok(DateTime::from_utc(utc, self.offset))
    }

    /// Makes a new `DateTime` from this date, hour, minute and second.  The
    /// offset in the current date is preserved.
    ///
    /// Fails with an invalid-time error when a component is out of range,
    /// and as [`Date::and_time`] otherwise.
    pub fn and_hms(self, hour: u32, min: u32, sec: u32) -> (r: Result<DateTime<Tz>, ChronoError>)
        ensures
            !valid_hms(hour as int, min as int, sec as int) ==> (r matches Err(e) && e.spec_kind()
                == ChronoErrorKind::InvalidTime),
            valid_hms(hour as int, min as int, sec as int) ==> spec_and_hms_outcome(
                self,
                spec_secs_of_hms(hour as int, min as int, sec as int),
                0,
                r,
            ),
    {
        let t = NaiveTime::from_hms(hour, min, sec)?;
        self.and_time(t)
    }

    /// Makes a new `DateTime` from this date, hour, minute, second and
    /// millisecond.  The millisecond part can exceed 1,000 in order to
    /// represent the leap second.  The offset in the current date is
    /// preserved.
    ///
    /// Fails with an invalid-time error when a component is out of range,
    /// and as [`Date::and_time`] otherwise.
    pub fn and_hms_milli(self, hour: u32, min: u32, sec: u32, milli: u32) -> (r: Result<
        DateTime<Tz>,
        ChronoError,
    >)
        ensures
            !(valid_hms(hour as int, min as int, sec as int) && milli < 2000) ==> (r matches Err(e)
                && e.spec_kind() == ChronoErrorKind::InvalidTime),
            valid_hms(hour as int, min as int, sec as int) && milli < 2000 ==> spec_and_hms_outcome(
                self,
                spec_secs_of_hms(hour as int, min as int, sec as int),
                milli as int * 1_000_000,
                r,
            ),
    {
        let t = NaiveTime::from_hms_milli(hour, min, sec, milli)?;
        self.and_time(t)
    }

    /// Makes a new `DateTime` from this date, hour, minute, second and
    /// microsecond.  The microsecond part can exceed 1,000,000 in order to
    /// represent the leap second.  The offset in the current date is
    /// preserved.
    ///
    /// Fails with an invalid-time error when a component is out of range,
    /// and as [`Date::and_time`] otherwise.
    pub fn and_hms_micro(self, hour: u32, min: u32, sec: u32, micro: u32) -> (r: Result<
        DateTime<Tz>,
        ChronoError,
    >)
        ensures
            !(valid_hms(hour as int, min as int, sec as int) && micro < 2_000_000) ==> (
            r matches Err(e) && e.spec_kind() == ChronoErrorKind::InvalidTime),
            valid_hms(hour as int, min as int, sec as int) && micro < 2_000_000
                ==> spec_and_hms_outcome(
                self,
                spec_secs_of_hms(hour as int, min as int, sec as int),
                micro as int * 1000,
                r,
            ),
    {
        let t = NaiveTime::from_hms_micro(hour, min, sec, micro)?;
        self.and_time(t)
    }

    /// Makes a new `DateTime` from this date, hour, minute, second and
    /// nanosecond.  The nanosecond part can exceed 1,000,000,000 in order to
    /// represent the leap second.  The offset in the current date is
    /// preserved.
    ///
    /// Fails with an invalid-time error when a component is out of range,
    /// and as [`Date::and_time`] otherwise.
    pub fn and_hms_nano(self, hour: u32, min: u32, sec: u32, nano: u32) -> (r: Result<
        DateTime<Tz>,
        ChronoError,
    >)
        ensures
            !(valid_hms(hour as int, min as int, sec as int) && nano < 2_000_000_000) ==> (
            r matches Err(e) && e.spec_kind() == ChronoErrorKind::InvalidTime),
            valid_hms(hour as int, min as int, sec as int) && nano < 2_000_000_000
                ==> spec_and_hms_outcome(
                self,
                spec_secs_of_hms(hour as int, min as int, sec as int),
                nano as int,
                r,
            ),
    {
        let t = NaiveTime::from_hms_nano(hour, min, sec, nano)?;
        self.and_time(t)
    }
}

/// What combining the date `d` with a valid time of day (`secs` seconds
/// since local midnight, fraction `frac`) yields: the instant shifted to
/// UTC, or an invalid-date-time error exactly when that instant leaves the
/// representable calendar.
pub open spec fn spec_and_hms_outcome<Tz: TimeZone>(
    d: Date<Tz>,
    secs: int,
    frac: int,
    r: Result<DateTime<Tz>, ChronoError>,
) -> bool {
    let utc = spec_local_at_time_utc_secs(
        d.date,
        TimeRep { secs, frac },
        d.offset.fix_spec(),
    );
    &&& r is Ok <==> spec_secs_in_range(utc)
    &&& r matches Ok(dt) ==> dt.offset == d.offset && spec_datetime_secs(
        dt.datetime@,
    ) == utc && dt.datetime@.time.frac == frac
    &&& r matches Err(e) ==> e.spec_kind() == ChronoErrorKind::InvalidDateTime
}

} // verus!
