//! A time-zone abstraction and offset-resolution engine.
//!
//! The library bridges zone-less ("naive") calendar values and zone-aware
//! absolute instants.  A handful of abstract resolution primitives, stated
//! in the [`TimeZone`] trait, drive a shared derivation of the convenience
//! constructors; [`LocalResult`] models the unique-or-ambiguous outcome of
//! resolving a civil-time value; [`Utc`] and [`FixedOffset`] are the
//! concrete reference zones.

mod date;
mod datetime;
mod error;
mod format;
mod naive;
mod offset;

pub use date::Date;
pub use datetime::DateTime;
pub use error::ChronoError;
pub use error::ChronoErrorKind;
pub use naive::NaiveDate;
pub use naive::NaiveDateTime;
pub use naive::NaiveTime;
pub use naive::Weekday;
pub use offset::FixedOffset;
pub use offset::FixedTimeZone;
pub use offset::LocalResult;
pub use offset::Offset;
pub use offset::TimeZone;
pub use offset::Utc;
