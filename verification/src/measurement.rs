//! Measurements: the per-source payloads that the archived records carry,
//! and the timestamp conversion used when reading them.

use chrono::{Datelike, TimeZone, Timelike};
use vstd::prelude::*;

verus! {

/// A civil UTC date and time, as plain values. A leap second is carried in
/// `nanosecond` as a value of at least one billion.
#[derive(Clone, Copy, Debug, PartialEq, Eq, Structural)]
pub struct UtcDateTime {
    /// Calendar year.
    pub year: i32,
    /// Calendar month, one through twelve.
    pub month: u32,
    /// Day of the month, one through thirty-one.
    pub day: u32,
    /// Hour of the day, below twenty-four.
    pub hour: u32,
    /// Minute of the hour, below sixty.
    pub minute: u32,
    /// Second of the minute, below sixty.
    pub second: u32,
    /// Nanoseconds within the second; at most just below two billion, to
    /// carry a leap second.
    pub nanosecond: u32,
}

impl UtcDateTime {
    /// The fields lie in their calendar ranges.
    pub open spec fn wf(self) -> bool {
        &&& 1 <= self.month <= 12
        &&& 1 <= self.day <= 31
        &&& self.hour < 24
        &&& self.minute < 60
        &&& self.second < 60
        &&& self.nanosecond < 2_000_000_000
    }
}

/// The civil UTC date and time that the given whole seconds and subsecond
/// nanoseconds since the Unix epoch fall on, or `None` when the instant is
/// outside the representable calendar; a function of the arguments alone.
pub uninterp spec fn civil_of_timestamp(secs: u64, nanos: u32) -> Option<UtcDateTime>;

/// Relies on chrono: `Utc.timestamp_opt` maps a timestamp to its UTC
/// calendar date and time (or to nothing when out of range), and the
/// `Datelike` and `Timelike` accessors hand its fields out within their
/// calendar ranges, with the subsecond nanoseconds passed through.
#[verifier::external_body]
fn utc_from_timestamp(secs: u64, nanos: u32) -> (r: Option<UtcDateTime>)
    requires
        nanos < 1_000_000_000,
        secs <= i64::MAX as u64,
    ensures
        r == civil_of_timestamp(secs, nanos),
        r matches Some(d) ==> d.wf() && d.nanosecond == nanos,
{
    match chrono::Utc.timestamp_opt(secs as i64, nanos) {
        chrono::LocalResult::Single(dt) => Some(
            UtcDateTime {
                year: dt.year(),
                month: dt.month(),
                day: dt.day(),
                hour: dt.hour(),
                minute: dt.minute(),
                second: dt.second(),
                nanosecond: dt.nanosecond(),
            },
        ),
        _ => None,
    }
}

/// Converts nanoseconds since the Unix epoch (in UTC) to the civil UTC date
/// and time. Instants before the epoch are rejected.
pub fn nanos_to_date_time(unix_ns: i64) -> (r: Option<UtcDateTime>)
    ensures
        unix_ns < 0 ==> r is None,
        unix_ns >= 0 ==> r == civil_of_timestamp(
            (unix_ns as u64 / 1_000_000_000) as u64,
            (unix_ns as u64 % 1_000_000_000) as u32,
        ),
        r matches Some(d) ==> d.wf() && d.nanosecond == (unix_ns as u64 % 1_000_000_000) as u32,
{
    if unix_ns < 0 {
        return None;
    }
    let u = unix_ns as u64;
    let secs = u / 1_000_000_000;
    let nanos = (u % 1_000_000_000) as u32;
    proof {
        assert(secs <= i64::MAX as u64) by (nonlinear_arith)
            requires
                secs == u / 1_000_000_000 && u <= i64::MAX as u64,
        ;
    }
    utc_from_timestamp(secs, nanos)
}

/// A constructor error that measurement error types must offer: the variant
/// reporting that a broker message arrived without a payload.
pub trait MeasurementError: Sized {
    /// The error value reporting an absent payload.
    fn empty_payload_error() -> Self;
}

/// A raw measurement from a sensor, or derived data from a computation.
///
/// A deployment archives a closed set of payload shapes: write one struct
/// per shape, implement this trait for each, and dispatch over a sum type of
/// the shapes where several flow through one pipeline.
pub trait Measurement: Sized {
    /// Error reported when bytes cannot be mapped into this measurement.
    type Error: MeasurementError;

    /// The broker topic this measurement kind is produced to.
    fn topic_name() -> String;

    /// Serializes the measurement into the payload bytes of one record.
    fn to_bytes(&self) -> Vec<u8>;

    /// Deserializes a measurement from one record's payload bytes; the
    /// inverse of [`Measurement::to_bytes`] on well-formed bytes.
    fn from_bytes(bytes: &[u8]) -> Result<Self, Self::Error>;

    /// The measurement's own UTC timestamp, nanoseconds since the Unix
    /// epoch; not the broker record's ingestion time.
    fn timestamp_nanos(&self) -> i64;

    /// Identifier of the sensor or algorithm source that produced it.
    fn source_id(&self) -> &str;
}

/// Reads one measurement from a consumed record's payload: an absent
/// payload is the data-quality fault, reported through the measurement's
/// own error type rather than failing the pipeline.
pub fn measurement_from_payload<M: Measurement>(payload: Option<&[u8]>) -> (r: Result<
    M,
    M::Error,
>)
    ensures
        payload is None ==> r is Err,
{
    match payload {
        Some(bytes) => M::from_bytes(bytes),
        None => Err(M::Error::empty_payload_error()),
    }
}

} // verus!
