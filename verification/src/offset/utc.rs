//! The UTC (Coordinated Universal Time) time zone.

use vstd::prelude::*;

use crate::date::Date;
use crate::datetime::DateTime;
use crate::error::ChronoError;
use crate::error::ChronoErrorKind;
use crate::naive::DateRep;
use crate::naive::DateTimeRep;
use crate::naive::NaiveDate;
use crate::naive::NaiveDateTime;
use crate::naive::spec_datetime_secs;
use crate::naive::spec_max_days;
use crate::offset::FixedOffset;
use crate::offset::FixedTimeZone;
use crate::offset::Offset;
use crate::offset::TimeZone;

verus! {

/// The UTC time zone.  This is the most efficient time zone when you don't
/// need the local time.  It is also used as an offset (which is also a dummy
/// type).
///
/// Using the [`TimeZone`] methods on the UTC struct is the preferred way to
/// construct `DateTime<Utc>` instances.
#[derive(Debug, Clone, Copy, PartialEq, Eq, Hash, Structural)]
pub struct Utc;

/// Relies on std::time: `SystemTime::now().duration_since(UNIX_EPOCH)`
/// reads the system clock once and yields the elapsed whole seconds with the
/// nanosecond remainder, which `Duration::subsec_nanos` documents to be
/// below one billion, or an error exactly when the clock reads earlier than
/// the Unix epoch.
#[verifier::external_body]
fn clock_since_epoch() -> (r: Option<(u64, u32)>)
    ensures
        r matches Some(p) ==> p.1 < 1_000_000_000,
{
    match std::time::SystemTime::now().duration_since(std::time::UNIX_EPOCH) {
        Ok(d) => Some((d.as_secs(), d.subsec_nanos())),
        Err(_) => None,
    }
}

impl Utc {
    /// Returns a `Date` which corresponds to the current date.
    ///
    /// Propagates the failure of [`Utc::now`] unchanged.
    pub fn today() -> (r: Result<Date<Utc>, ChronoError>)
        ensures
            r matches Err(e) ==> e.spec_kind() == ChronoErrorKind::SystemTimeBeforeEpoch
                || e.spec_kind() == ChronoErrorKind::InvalidDateTime,
            r matches Ok(d) ==> d.offset == Utc && crate::naive::spec_days_from_epoch(d.date@)
                >= 0,
    {
        match Utc::now() {
            Ok(dt) => Ok(dt.date()),
            Err(e) => Err(e),
        }
    }

    /// Returns a `DateTime` which corresponds to the current date and time.
    ///
    /// Fails with a before-epoch error exactly when the system clock reads
    /// earlier than 1970-01-01T00:00:00Z; a reading beyond the representable
    /// calendar gives an invalid-date-time error.
    pub fn now() -> (r: Result<DateTime<Utc>, ChronoError>)
        ensures
            r matches Err(e) ==> e.spec_kind() == ChronoErrorKind::SystemTimeBeforeEpoch
                || e.spec_kind() == ChronoErrorKind::InvalidDateTime,
            r matches Ok(dt) ==> dt.offset == Utc && spec_datetime_secs(
                dt.datetime@,
            ) >= 0 && crate::naive::spec_secs_in_range(spec_datetime_secs(dt.datetime@)),
    {
        Utc::from_clock_reading(clock_since_epoch())
    }

    /// Builds the UTC instant a clock reading names: the whole seconds and
    /// nanosecond remainder since the Unix epoch, or `None` for a clock that
    /// reads before the epoch.
    ///
    /// Fails with a before-epoch error if and only if the reading is
    /// `None`.  A reading beyond the representable calendar gives an
    /// invalid-date-time error, and a nanosecond remainder of two billion or
    /// more an invalid-time error.
    pub fn from_clock_reading(reading: Option<(u64, u32)>) -> (r: Result<DateTime<Utc>, ChronoError>)
        ensures
            (reading is None <==> (r matches Err(e) && e.spec_kind()
                == ChronoErrorKind::SystemTimeBeforeEpoch)),
            reading matches Some(p) ==> (r is Ok <==> p.0 <= i64::MAX && p.0 as int / 86400
                <= spec_max_days() && p.1 < 2_000_000_000),
            reading matches Some(p) ==> (r matches Ok(dt) ==> spec_datetime_secs(
                dt.datetime@,
            ) == p.0 as int && dt.datetime@.time.frac == p.1 as int && dt.offset
                == Utc && crate::naive::spec_secs_in_range(spec_datetime_secs(dt.datetime@))),
            reading matches Some(p) ==> (p.1 < 2_000_000_000 ==> (r matches Err(e) ==> e.spec_kind()
                == ChronoErrorKind::InvalidDateTime)),
            reading matches Some(p) ==> (p.1 >= 2_000_000_000 ==> (r matches Err(e)
                ==> e.spec_kind() == ChronoErrorKind::InvalidTime)),
    {
        match reading {
            None => Err(ChronoError::new(ChronoErrorKind::SystemTimeBeforeEpoch)),
            Some((secs, nanos)) => {
                if secs > i64::MAX as u64 {
                    if nanos >= 2_000_000_000 {
                        return Err(ChronoError::new(ChronoErrorKind::InvalidTime));
                    }
                    return Err(ChronoError::new(ChronoErrorKind::InvalidDateTime));
                }
                proof {
                    crate::naive::lemma_days_before_year_bounds(
                        crate::naive::MIN_YEAR as int,
                        1970,
                    );
                    assert(secs as i64 as int == secs as int);
                }
                let naive = NaiveDateTime::from_timestamp(secs as i64, nanos)?;
                Ok(DateTime::from_utc(naive, Utc))
            },
        }
    }
}

impl TimeZone for Utc {
    type Offset = Utc;

    open spec fn spec_local_date_offset(&self, local: DateRep) -> Result<Utc, ChronoError> {
        Ok(Utc)
    }

    open spec fn spec_local_datetime_offset(&self, local: DateTimeRep) -> Result<Utc, ChronoError> {
        Ok(Utc)
    }

    open spec fn spec_utc_date_offset(&self, utc: DateRep) -> Utc {
        Utc
    }

    open spec fn spec_utc_datetime_offset(&self, utc: DateTimeRep) -> Utc {
        Utc
    }

    fn from_offset(_offset: &Utc) -> (r: Utc)
        ensures
            r == Utc,
    {
        Utc
    }

    fn offset_from_local_date(&self, local: &NaiveDate) -> (r: Result<Utc, ChronoError>) {
        Ok(Utc)
    }

    fn offset_from_local_datetime(&self, local: &NaiveDateTime) -> (r: Result<Utc, ChronoError>) {
        Ok(Utc)
    }

    fn offset_from_utc_date(&self, utc: &NaiveDate) -> (r: Result<Utc, ChronoError>) {
        Ok(Utc)
    }

    fn offset_from_utc_datetime(&self, utc: &NaiveDateTime) -> (r: Result<Utc, ChronoError>) {
        Ok(Utc)
    }
}

impl FixedTimeZone for Utc {
    fn offset_from_utc_date_fixed(&self, utc: &NaiveDate) -> (r: Utc) {
        Utc
    }

    fn offset_from_utc_datetime_fixed(&self, utc: &NaiveDateTime) -> (r: Utc) {
        Utc
    }
}

impl Offset for Utc {
    open spec fn fix_spec(&self) -> int {
        0
    }

    fn fix(&self) -> (r: FixedOffset) {
        FixedOffset::east(0)
    }
}

/// Utc's resolved offset is the zero fixed offset for every possible date
/// and time input, with no exceptions: each of its four resolution
/// primitives yields `Utc` itself, whose fixed offset is zero seconds.
pub proof fn lemma_utc_offset_always_zero(o: Utc, d: DateRep, t: DateTimeRep)
    ensures
        o.fix_spec() == 0,
        Utc.spec_local_date_offset(d) == Ok::<Utc, ChronoError>(Utc),
        Utc.spec_local_datetime_offset(t) == Ok::<Utc, ChronoError>(Utc),
        Utc.spec_utc_date_offset(d) == Utc,
        Utc.spec_utc_datetime_offset(t) == Utc,
        Utc.spec_utc_date_offset(d).fix_spec() == 0,
        Utc.spec_utc_datetime_offset(t).fix_spec() == 0,
{
}

} // verus!
