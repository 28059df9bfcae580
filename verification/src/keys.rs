//! Deterministic names derived from the configured source: the broker topic
//! and consumer group, the object-store key of one flush, and the source
//! path of an object copy.

use vstd::prelude::*;
use vstd::string::StringExecFns;

verus! {

/// The broker topic a source's measurements are consumed from.
pub fn topic_name(sensor_name: &str) -> (t: String)
    ensures
        t@ == sensor_name@ + "-measurements"@,
{
    sensor_name.to_owned().concat("-measurements")
}

/// The consumer group whose offsets record how far this source has been
/// archived; dedicated to the archival sink.
pub fn group_id(sensor_name: &str) -> (g: String)
    ensures
        g@ == sensor_name@ + "-archiver"@,
{
    sensor_name.to_owned().concat("-archiver")
}

/// The object-store key of one flush: the source name and the wall-clock
/// timestamp of archival time, separated by a slash. A high-resolution
/// timestamp keeps keys unique across flushes, so no earlier archive is
/// silently overwritten.
pub fn archive_key(sensor_name: &str, timestamp: &str) -> (k: String)
    ensures
        k@ == sensor_name@ + "/"@ + timestamp@,
{
    sensor_name.to_owned().concat("/").concat(timestamp)
}

/// The `{bucket}/{key}` path naming the source object of a copy.
pub fn copy_source_path(bucket_name: &str, object_key: &str) -> (p: String)
    ensures
        p@ == bucket_name@ + "/"@ + object_key@,
{
    bucket_name.to_owned().concat("/").concat(object_key)
}

/// Relies on `std::time::SystemTime` for the clock reading and on chrono's
/// `DateTime::from_timestamp` and `to_rfc3339` for the rendering: the
/// current wall-clock time as RFC 3339 text, which is never empty. A clock
/// before the Unix epoch or beyond the representable calendar falls back to
/// the epoch, so no reading makes this call fail. The value depends on the
/// clock, so nothing further is assumed of it.
#[verifier::external_body]
pub(crate) fn now_rfc3339() -> (s: String)
    ensures
        s@.len() > 0,
{
    let since_epoch = match std::time::SystemTime::now().duration_since(std::time::UNIX_EPOCH) {
        Ok(d) => d,
        Err(_) => std::time::Duration::ZERO,
    };
    let dt = match chrono::DateTime::from_timestamp(
        since_epoch.as_secs() as i64,
        since_epoch.subsec_nanos(),
    ) {
        Some(dt) => dt,
        None => chrono::DateTime::UNIX_EPOCH,
    };
    dt.to_rfc3339()
}

} // verus!
