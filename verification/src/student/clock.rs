//! The wall clock, as far as the student record needs it.

use vstd::prelude::*;

verus! {

/// An instant in UTC: whole seconds since the Unix epoch and the nanoseconds
/// into that second.
#[derive(Debug, Clone, Copy, PartialEq, Eq, Structural)]
pub struct Timestamp {
    pub seconds: i64,
    pub nanos: u32,
}

/// One reading of the clock: the instant and its calendar year.
#[derive(Debug, Clone, Copy)]
pub struct Reading {
    pub instant: Timestamp,
    pub year: i32,
}

/// The system clock by `std::time::SystemTime::now`, as the instant that
/// `chrono::DateTime::<Utc>::from` makes of it, taken apart by
/// `DateTime::timestamp`, `DateTime::timestamp_subsec_nanos` and
/// `Datelike::year`. An instant before the Unix epoch has negative seconds.
/// Nothing is claimed of the reading that comes back.
#[verifier::external_body]
pub(crate) fn read_clock() -> Reading {
    let instant = chrono::DateTime::<chrono::Utc>::from(std::time::SystemTime::now());
    Reading {
        instant: Timestamp {
            seconds: instant.timestamp(),
            nanos: instant.timestamp_subsec_nanos(),
        },
        year: chrono::Datelike::year(&instant),
    }
}

} // verus!
