//! The unit of consumption: one record pulled from the broker.

use vstd::prelude::*;

verus! {

/// A single record consumed from the broker: an opaque payload (which may be
/// absent), the broker-assigned position (partition and offset), and the
/// broker-assigned ingestion timestamp in nanoseconds since the Unix epoch.
#[derive(Clone, Debug, PartialEq, Eq)]
pub struct Record {
    /// Partition the record was read from.
    pub partition: u32,
    /// Offset of the record within its partition.
    pub offset: u64,
    /// Ingestion timestamp, nanoseconds since the Unix epoch.
    pub timestamp_ns: u64,
    /// The payload bytes; `None` when the broker delivered no payload.
    pub payload: Option<Vec<u8>>,
}

/// The mathematical model of a [`Record`]: the same fields with the payload
/// as a sequence of bytes.
pub struct RecordView {
    /// Partition the record was read from.
    pub partition: u32,
    /// Offset of the record within its partition.
    pub offset: u64,
    /// Ingestion timestamp, nanoseconds since the Unix epoch.
    pub timestamp_ns: u64,
    /// The payload bytes; `None` when the broker delivered no payload.
    pub payload: Option<Seq<u8>>,
}

impl View for Record {
    type V = RecordView;

    open spec fn view(&self) -> RecordView {
        RecordView {
            partition: self.partition,
            offset: self.offset,
            timestamp_ns: self.timestamp_ns,
            payload: match self.payload {
                Some(p) => Some(p@),
                None => None,
            },
        }
    }
}

/// A record is archivable only when it carries a non-empty payload; records
/// without one are a data-quality issue and are skipped, not archived.
pub open spec fn has_payload(r: RecordView) -> bool {
    match r.payload {
        Some(p) => p.len() > 0,
        None => false,
    }
}

/// The models of a sequence of records.
pub open spec fn views_of(s: Seq<Record>) -> Seq<RecordView> {
    s.map_values(|r: Record| r@)
}

impl Record {
    /// Whether this record carries a non-empty payload.
    pub fn has_payload(&self) -> (b: bool)
        ensures
            b == has_payload(self@),
    {
        match &self.payload {
            Some(p) => p.len() > 0,
            None => false,
        }
    }
}

} // verus!
