//! Archival pipeline for sensor measurement topics.
//!
//! A broker topic of sensor measurements is consumed record by record,
//! buffered into bounded batches, encoded into a self-describing binary
//! container, compressed, and uploaded to object storage; the broker's
//! consumption offset is committed only after the upload is durable.

use vstd::prelude::*;

pub mod accumulator;
pub mod arrow;
pub mod cli;
pub mod codec;
pub mod compress;
pub mod error;
pub mod keys;
pub mod machine;
pub mod measurement;
pub mod parquet;
pub mod record;
pub mod trace;

verus! {

/// A sink for sensor data: implementations move consumed measurements into a
/// downstream data system (object storage, a database) and own the timing of
/// the broker offset commits for their consumer group.
pub trait SensorSink {

}

} // verus!
