use chrono::{Datelike, Timelike, Utc};
use opensensor::measurement::{
    measurement_from_payload, nanos_to_date_time, Measurement, MeasurementError, UtcDateTime,
};

#[test]
fn test_timestamp_nanos() {
    let now = Utc::now();
    let now_ns = nanos_to_date_time(now.timestamp_nanos_opt().unwrap()).unwrap();
    println!("{} {:?}", now, now_ns);

    assert_eq!(now_ns.year, now.year());
    assert_eq!(now_ns.month, now.month());
    assert_eq!(now_ns.day, now.day());
    assert_eq!(now_ns.hour, now.hour());
    assert_eq!(now_ns.minute, now.minute());
    assert_eq!(now_ns.second, now.second());
    assert_eq!(now_ns.nanosecond, now.nanosecond());
}

#[test]
fn epoch_and_known_instants() {
    let epoch = nanos_to_date_time(0).unwrap();
    assert_eq!(
        epoch,
        UtcDateTime { year: 1970, month: 1, day: 1, hour: 0, minute: 0, second: 0, nanosecond: 0 }
    );
    let one = nanos_to_date_time(1_000_000_444).unwrap();
    assert_eq!(one.second, 1);
    assert_eq!(one.nanosecond, 444);
}

#[test]
fn negative_timestamps_are_rejected() {
    assert_eq!(nanos_to_date_time(-1), None);
    assert_eq!(nanos_to_date_time(i64::MIN), None);
}

#[derive(Debug, PartialEq, Eq)]
enum ProbeError {
    EmptyPayload,
    Malformed,
}

impl MeasurementError for ProbeError {
    fn empty_payload_error() -> Self {
        ProbeError::EmptyPayload
    }
}

/// A one-byte measurement used to exercise the capability interface.
#[derive(Debug, PartialEq, Eq)]
struct ProbeMeasurement {
    level: u8,
}

impl Measurement for ProbeMeasurement {
    type Error = ProbeError;

    fn topic_name() -> String {
        String::from("probe-measurements")
    }

    fn to_bytes(&self) -> Vec<u8> {
        vec![self.level]
    }

    fn from_bytes(bytes: &[u8]) -> Result<Self, Self::Error> {
        if bytes.len() == 1 {
            Ok(ProbeMeasurement { level: bytes[0] })
        } else {
            Err(ProbeError::Malformed)
        }
    }

    fn timestamp_nanos(&self) -> i64 {
        0
    }

    fn source_id(&self) -> &str {
        "probe"
    }
}

#[test]
fn absent_payload_is_the_empty_payload_error() {
    let r: Result<ProbeMeasurement, ProbeError> = measurement_from_payload(None);
    assert_eq!(r, Err(ProbeError::EmptyPayload));
}

#[test]
fn payload_round_trips_through_measurement() {
    let m = ProbeMeasurement { level: 42 };
    let bytes = m.to_bytes();
    let back: ProbeMeasurement = measurement_from_payload(Some(bytes.as_slice())).unwrap();
    assert_eq!(back, m);
    assert_eq!(ProbeMeasurement::topic_name(), "probe-measurements");
    assert_eq!(back.source_id(), "probe");
}
