//! Columnar archive-file serialization capability for sensor types.

use vstd::prelude::*;

verus! {

/// Sensors implement this to serialize their measurements into columnar
/// archive files and read them back; it exists so archiving code can be
/// shared across sensors.
pub trait ParquetArchivable: Sized {
    /// Should be the same as the sensor's error type.
    type Error;

    /// Writes this value out as columnar archive-file bytes.
    fn to_bytes_parquet(self) -> Result<Vec<u8>, Self::Error>;

    /// Reads a value back from columnar archive-file bytes.
    fn from_bytes_parquet(bytes: &[u8]) -> Result<Self, Self::Error>;
}

} // verus!
