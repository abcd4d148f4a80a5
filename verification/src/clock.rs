//! Wall-clock readings.

use vstd::prelude::*;

verus! {

/// An instant, as nanoseconds since the Unix epoch in UTC.
#[derive(Clone, Copy, Debug, PartialEq, Eq, Structural, Hash)]
pub struct Timestamp {
    pub nanos: i128,
}

/// Reads the system clock through `time::OffsetDateTime::now_utc` and
/// converts the reading with `unix_timestamp_nanos`. Nothing is claimed of
/// the value: two readings may be equal, and a later one may be smaller when
/// the system clock is set back.
#[verifier::external_body]
pub(crate) fn now() -> Timestamp {
    Timestamp { nanos: time::OffsetDateTime::now_utc().unix_timestamp_nanos() }
}

} // verus!
