//! The archiver's configuration surface, as plain values.
//!
//! Argument parsing and credential wiring live at the process boundary; the
//! pipeline consumes the parsed values through this structure and does not
//! interpret them further.

use vstd::prelude::*;
use vstd::string::StringExecFns;

verus! {

/// Configuration of one archiver instance: object-store credentials and
/// location, the source to archive, the batch bound, and the broker
/// addresses.
pub struct Cli {
    /// Object-store access key.
    pub access_key: String,
    /// Object-store secret key.
    pub secret_key: String,
    /// Object-store endpoint to connect to.
    pub endpoint: String,
    /// Object-store region.
    pub region: String,
    /// Bucket the archives are written to.
    pub bucket_name: String,
    /// Source whose measurements are archived; the broker topic and consumer
    /// group names are derived from it.
    pub sensor_name: String,
    /// Records per archive chunk.
    pub chunk_size: u64,
    /// Broker addresses, comma-separated host:port pairs.
    pub kafka_addresses: String,
}

impl Cli {
    /// Builds a configuration from plain values.
    pub fn new(
        access_key: &str,
        secret_key: &str,
        endpoint: &str,
        region: &str,
        bucket_name: &str,
        sensor_name: &str,
        chunk_size: u64,
        kafka_addresses: &str,
    ) -> (cli: Cli)
        ensures
            cli.access_key@ == access_key@,
            cli.secret_key@ == secret_key@,
            cli.endpoint@ == endpoint@,
            cli.region@ == region@,
            cli.bucket_name@ == bucket_name@,
            cli.sensor_name@ == sensor_name@,
            cli.chunk_size == chunk_size,
            cli.kafka_addresses@ == kafka_addresses@,
    {
        Cli {
            access_key: access_key.to_owned(),
            secret_key: secret_key.to_owned(),
            endpoint: endpoint.to_owned(),
            region: region.to_owned(),
            bucket_name: bucket_name.to_owned(),
            sensor_name: sensor_name.to_owned(),
            chunk_size,
            kafka_addresses: kafka_addresses.to_owned(),
        }
    }

    /// Object-store access key.
    pub fn access_key(&self) -> (s: &str)
        ensures
            s@ == self.access_key@,
    {
        self.access_key.as_str()
    }

    /// Object-store secret key.
    pub fn secret_key(&self) -> (s: &str)
        ensures
            s@ == self.secret_key@,
    {
        self.secret_key.as_str()
    }

    /// Object-store endpoint.
    pub fn endpoint(&self) -> (s: &str)
        ensures
            s@ == self.endpoint@,
    {
        self.endpoint.as_str()
    }

    /// Object-store region.
    pub fn region(&self) -> (s: &str)
        ensures
            s@ == self.region@,
    {
        self.region.as_str()
    }

    /// Bucket the archives are written to.
    pub fn bucket_name(&self) -> (s: &str)
        ensures
            s@ == self.bucket_name@,
    {
        self.bucket_name.as_str()
    }

    /// Source whose measurements are archived.
    pub fn sensor_name(&self) -> (s: &str)
        ensures
            s@ == self.sensor_name@,
    {
        self.sensor_name.as_str()
    }

    /// Records per archive chunk.
    pub fn chunk_size(&self) -> (n: u64)
        ensures
            n == self.chunk_size,
    {
        self.chunk_size
    }

    /// Broker addresses the archiver consumes from.
    pub fn kafka_addresses(&self) -> (s: &str)
        ensures
            s@ == self.kafka_addresses@,
    {
        self.kafka_addresses.as_str()
    }
}

} // verus!
