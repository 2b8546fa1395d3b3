//! The time zone with a fixed offset from UTC.

use vstd::prelude::*;

use crate::error::ChronoError;
use crate::offset::Offset;
use crate::offset::TimeZone;
use crate::offset::FixedTimeZone;
use crate::naive::DateRep;
use crate::naive::DateTimeRep;
use crate::naive::NaiveDate;
use crate::naive::NaiveDateTime;

verus! {

/// A constant signed duration east of UTC, strictly between minus and plus
/// 24 hours.  It is both a zone state and a zone of its own.
#[derive(Debug, Clone, Copy, PartialEq, Eq, Hash, Structural)]
pub struct FixedOffset {
    local_minus_utc: i32,
}

impl View for FixedOffset {
    type V = int;

    closed spec fn view(&self) -> int {
        self.local_minus_utc as int
    }
}

impl FixedOffset {
    #[verifier::type_invariant]
    spec fn type_inv(self) -> bool {
        -86400 < self@ < 86400
    }

    /// Makes a new fixed offset for a place east of UTC by `secs` seconds.
    pub fn east(secs: i32) -> (r: FixedOffset)
        requires
            -86400 < secs < 86400,
        ensures
            r@ == secs as int,
    {
        FixedOffset { local_minus_utc: secs }
    }

    /// Makes a new fixed offset for a place west of UTC by `secs` seconds.
    pub fn west(secs: i32) -> (r: FixedOffset)
        requires
            -86400 < secs < 86400,
        ensures
            r@ == -(secs as int),
    {
        FixedOffset { local_minus_utc: -secs }
    }

    /// The number of seconds to add to a UTC time to get the local time.
    pub fn local_minus_utc(&self) -> (r: i32)
        ensures
            r as int == self@,
            -86400 < r < 86400,
    {
        proof {
            use_type_invariant(self);
        }
        self.local_minus_utc
    }
}

impl Offset for FixedOffset {
    open spec fn fix_spec(&self) -> int {
        self@
    }

    fn fix(&self) -> (r: FixedOffset) {
        *self
    }
}

impl TimeZone for FixedOffset {
    type Offset = FixedOffset;

    open spec fn spec_local_date_offset(&self, local: DateRep) -> Result<
        FixedOffset,
        ChronoError,
    > {
        Ok(*self)
    }

    open spec fn spec_local_datetime_offset(&self, local: DateTimeRep) -> Result<
        FixedOffset,
        ChronoError,
    > {
        Ok(*self)
    }

    open spec fn spec_utc_date_offset(&self, utc: DateRep) -> FixedOffset {
        *self
    }

    open spec fn spec_utc_datetime_offset(&self, utc: DateTimeRep) -> FixedOffset {
        *self
    }

    fn from_offset(offset: &FixedOffset) -> (r: FixedOffset)
        ensures
            r == *offset,
    {
        *offset
    }

    fn offset_from_local_date(&self, local: &NaiveDate) -> (r: Result<FixedOffset, ChronoError>) {
        Ok(*self)
    }

    fn offset_from_local_datetime(&self, local: &NaiveDateTime) -> (r: Result<
        FixedOffset,
        ChronoError,
    >) {
        Ok(*self)
    }

    fn offset_from_utc_date(&self, utc: &NaiveDate) -> (r: Result<FixedOffset, ChronoError>) {
        Ok(*self)
    }

    fn offset_from_utc_datetime(&self, utc: &NaiveDateTime) -> (r: Result<
        FixedOffset,
        ChronoError,
    >) {
        Ok(*self)
    }
}

impl FixedTimeZone for FixedOffset {
    fn offset_from_utc_date_fixed(&self, utc: &NaiveDate) -> (r: FixedOffset) {
        *self
    }

    fn offset_from_utc_datetime_fixed(&self, utc: &NaiveDateTime) -> (r: FixedOffset) {
        *self
    }
}

} // verus!
