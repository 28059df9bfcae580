//! Error kinds of the archival pipeline.

use vstd::prelude::*;

verus! {

/// Why a batch could not be encoded. Encoding fails only when a record's
/// payload cannot be mapped into the per-record schema or the container
/// would exceed the format's addressable size.
#[derive(Clone, Copy, Debug, PartialEq, Eq, Structural)]
pub enum EncodeError {
    /// Some record's payload is larger than the per-record limit.
    OversizedPayload,
    /// The container would exceed the chunk size limit, or the record count
    /// does not fit the count field.
    OversizedChunk,
}

/// Why a byte sequence could not be decoded as an archival chunk.
#[derive(Clone, Copy, Debug, PartialEq, Eq, Structural)]
pub enum DecodeError {
    /// The bytes are not a well-formed archival chunk.
    Malformed,
}

/// Why a compressed artifact could not be restored to its records.
#[derive(Clone, Copy, Debug, PartialEq, Eq, Structural)]
pub enum RestoreError {
    /// The bytes are not a compressed stream, or the decompressed content
    /// exceeds the given capacity.
    Decompression,
    /// The decompressed bytes are not a well-formed archival chunk.
    Decoding,
}

} // verus!
