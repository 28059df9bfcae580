//! In-memory columnar serialization capability for sensor types.

use vstd::prelude::*;

verus! {

/// Sensors implement this for columnar in-memory serialization and
/// deserialization of their measurements.
pub trait ArrowSerializable: Sized {
    /// The implementing sensor's error type.
    type Error;

    /// Serializes this value to bytes with a columnar in-memory writer.
    fn arrow_serialize(self) -> Vec<u8>;

    /// Reconstructs a value from bytes; the inverse of
    /// [`ArrowSerializable::arrow_serialize`] on well-formed bytes.
    fn arrow_deserialize(bytes: &[u8]) -> Result<Self, Self::Error>;
}

} // verus!
