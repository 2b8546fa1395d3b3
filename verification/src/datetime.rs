//! A timezone-aware instant: a UTC date and time paired with a resolved
//! offset.

use vstd::prelude::*;

use crate::date::Date;
use crate::naive::NaiveDateTime;
use crate::naive::spec_datetime_secs;
use crate::naive::spec_secs_in_range;
use crate::offset::Offset;
use crate::offset::TimeZone;

verus! {

/// An ISO 8601 combined date and time, with an attached time zone state.
///
/// The naive date and time are kept in UTC; the offset says how the zone
/// displays them locally.
#[derive(Clone, Copy)]
pub struct DateTime<Tz: TimeZone> {
    /// The UTC date and time carried by this value.
    pub datetime: NaiveDateTime,
    /// The resolved offset carried by this value.
    pub offset: Tz::Offset,
}

impl<Tz: TimeZone> DateTime<Tz> {
    /// Makes a new `DateTime` with given UTC datetime and offset.  The local
    /// datetime should be constructed via the `TimeZone` trait.
    pub fn from_utc(datetime: NaiveDateTime, offset: Tz::Offset) -> (r: Self)
        ensures
            r.datetime == datetime,
            r.offset == offset,
    {
        DateTime { datetime, offset }
    }

    /// The naive date and time in UTC.
    pub fn naive_utc(&self) -> (r: NaiveDateTime)
        ensures
            r == self.datetime,
    {
        self.datetime
    }

    /// The number of non-leap seconds since January 1, 1970 0:00:00 UTC;
    /// negative for earlier instants.
    pub fn timestamp(&self) -> (r: i64)
        ensures
            r as int == spec_datetime_secs(self.datetime@),
    {
        self.datetime.timestamp()
    }

    /// The local calendar day of this instant: the day of the UTC value
    /// shifted by the offset, paired with that offset.
    ///
    /// The instant must not lie so close to the edge of the representable
    /// calendar that the shift leaves it.
    pub fn date(&self) -> (r: Date<Tz>)
        requires
            spec_secs_in_range(
                spec_datetime_secs(self.datetime@) + self.offset.fix_spec(),
            ),
        ensures
            r.offset == self.offset,
            crate::naive::spec_days_from_epoch(r.date@) == (spec_datetime_secs(
                self.datetime@,
            ) + self.offset.fix_spec()) / 86400,
    {
        let fix = self.offset.fix();
        let local = match self.datetime.checked_add_offset_secs(fix.local_minus_utc()) {
            Ok(l) => l,
            Err(_) => vstd::pervasive::unreached(),
        };
        proof {
            use_type_invariant(&local);
        }
        Date::from_utc(local.date(), self.offset)
    }
}

} // verus!
