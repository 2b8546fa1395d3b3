use vstd::prelude::*;

verus! {

/// The kind of failure a calendar or clock operation can report.
///
/// The set is closed: every error this library produces wraps exactly one of
/// these kinds.
#[derive(Debug, Clone, Copy, PartialEq, Eq, Hash, Structural)]
pub enum ChronoErrorKind {
    /// Calendar coordinates (year, month, day, ordinal or week) out of range.
    InvalidDate,
    /// A time-of-day component (hour, minute, second or fraction) out of range.
    InvalidTime,
    /// A combined date-and-time value out of the supported range.
    InvalidDateTime,
    /// A convenience constructor was asked to combine a time with an already
    /// ambiguous date resolution.
    AmbiguousDate,
    /// The system clock reported an instant before the Unix epoch.
    SystemTimeBeforeEpoch,
}

/// The error raised for an invalid date time.
///
/// It is an immutable, copyable value wrapping exactly one [`ChronoErrorKind`].
#[derive(Debug, Clone, Copy, PartialEq, Eq, Hash, Structural)]
pub struct ChronoError {
    kind: ChronoErrorKind,
}

impl ChronoError {
    /// The kind wrapped by this error, at the specification level.
    pub closed spec fn spec_kind(&self) -> ChronoErrorKind {
        self.kind
    }

    /// Internal constructor for a chrono error.
    pub(crate) fn new(kind: ChronoErrorKind) -> (r: Self)
        ensures
            r.spec_kind() == kind,
    {
        Self { kind }
    }

    /// The kind wrapped by this error.
    pub fn kind(&self) -> (k: ChronoErrorKind)
        ensures
            k == self.spec_kind(),
    {
        self.kind
    }

    /// A short human-readable sentence for this error.
    pub fn message(&self) -> (r: &'static str)
        ensures
            r@ == spec_message(self.spec_kind()),
    {
        match self.kind {
            ChronoErrorKind::InvalidDate => "invalid date",
            ChronoErrorKind::InvalidTime => "invalid time",
            ChronoErrorKind::InvalidDateTime => "invalid date time",
            ChronoErrorKind::AmbiguousDate => "tried to operate over ambiguous date",
            ChronoErrorKind::SystemTimeBeforeEpoch => "system time before Unix epoch",
        }
    }
}

/// The rendering of each error kind as text.
pub open spec fn spec_message(k: ChronoErrorKind) -> Seq<char> {
    match k {
        ChronoErrorKind::InvalidDate => "invalid date"@,
        ChronoErrorKind::InvalidTime => "invalid time"@,
        ChronoErrorKind::InvalidDateTime => "invalid date time"@,
        ChronoErrorKind::AmbiguousDate => "tried to operate over ambiguous date"@,
        ChronoErrorKind::SystemTimeBeforeEpoch => "system time before Unix epoch"@,
    }
}

} // verus!
