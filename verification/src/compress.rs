//! Compression of encoded chunks, and the sealed artifact round trip.
//!
//! The artifact that leaves the process is the encoded chunk wrapped in a
//! general-purpose lossless codec (DEFLATE); a reader reverses the codec and
//! then decodes the self-describing container. The codec itself is an
//! outside library; what the library relies on of it is stated on the two
//! trusted wrappers below, over the names [`deflate_of`] and
//! [`deflate_inverse`].

use vstd::prelude::*;

use crate::codec::{
    chunk_encodable, decode_chunk, encode_chunk, record_encodable, spec_decode_chunk,
    spec_encode_chunk, MAX_CHUNK_BYTES,
};
use crate::error::{EncodeError, RestoreError};
use crate::record::{views_of, Record, RecordView};

verus! {

/// What DEFLATE encoding at the default level yields on a byte sequence:
/// compression is a pure function, so equal input bytes always give the
/// same stream, regardless of environment or earlier calls.
pub uninterp spec fn deflate_of(data: Seq<u8>) -> Seq<u8>;

/// What DEFLATE decoding yields on a byte sequence: the decoded payload, or
/// `None` when the bytes are not a well-formed DEFLATE stream. The decoded
/// payload depends on the input bytes alone.
pub uninterp spec fn deflate_inverse(compressed: Seq<u8>) -> Option<Seq<u8>>;

/// Relies on `flate2::bufread::DeflateEncoder` (with `Read::read_to_end` to
/// drive it): compressing an in-memory buffer is deterministic and cannot
/// fail (the encoder only reports its reader's errors, and a slice has
/// none), and DEFLATE is lossless, so the produced stream decodes back to
/// exactly the input bytes.
#[verifier::external_body]
fn deflate_compress(data: &Vec<u8>) -> (r: Result<Vec<u8>, ()>)
    ensures
        r is Ok,
        r matches Ok(c) ==> c@ == deflate_of(data@) && deflate_inverse(c@) == Some(data@),
{
    let mut enc = flate2::bufread::DeflateEncoder::new(
        data.as_slice(),
        flate2::Compression::default(),
    );
    let mut out: Vec<u8> = Vec::new();
    match std::io::Read::read_to_end(&mut enc, &mut out) {
        Ok(_) => Ok(out),
        Err(_) => Err(()),
    }
}

/// Relies on `flate2::bufread::DeflateDecoder` (with `Read::take` and
/// `Read::read_to_end` to drive it): decoding reads at most `limit` bytes;
/// a decode that ends before the limit yields exactly the stream's payload;
/// a well-formed stream whose payload is shorter than the limit decodes
/// successfully.
#[verifier::external_body]
fn deflate_decompress(data: &Vec<u8>, limit: u64) -> (r: Result<Vec<u8>, ()>)
    ensures
        r matches Ok(v) ==> v@.len() <= limit,
        r matches Ok(v) ==> (v@.len() < limit ==> deflate_inverse(data@) == Some(v@)),
        r matches Ok(v) ==> (deflate_inverse(data@) matches Some(full) ==> (full.len() < limit
            ==> v@ == full)),
        r is Err ==> !(deflate_inverse(data@) matches Some(full) && full.len() < limit),
{
    let dec = flate2::bufread::DeflateDecoder::new(data.as_slice());
    let mut lim = std::io::Read::take(dec, limit);
    let mut out: Vec<u8> = Vec::new();
    match std::io::Read::read_to_end(&mut lim, &mut out) {
        Ok(_) => Ok(out),
        Err(_) => Err(()),
    }
}

/// Seals a drained batch into the compressed artifact that is uploaded:
/// encodes the batch as one archival chunk, then compresses it.
///
/// Succeeds exactly on encodable batches, and then returns the compressed
/// encoding of the batch, from which DEFLATE decoding recovers exactly the
/// encoded chunk. An unencodable batch is the structural encoding fault,
/// reported as by [`encode_chunk`].
pub fn seal_chunk(batch: &Vec<Record>) -> (r: Result<Vec<u8>, EncodeError>)
    ensures
        r matches Ok(c) ==> chunk_encodable(views_of(batch@)) && c@ == deflate_of(
            spec_encode_chunk(views_of(batch@)),
        ) && deflate_inverse(c@) == Some(spec_encode_chunk(views_of(batch@))),
        r is Ok <==> chunk_encodable(views_of(batch@)),
        r == Err::<Vec<u8>, EncodeError>(EncodeError::OversizedPayload) <==> (exists|k: int|
            0 <= k < batch@.len() && !record_encodable(#[trigger] views_of(batch@)[k])),
        r == Err::<Vec<u8>, EncodeError>(EncodeError::OversizedChunk) <==> ((forall|k: int|
            0 <= k < batch@.len() ==> record_encodable(#[trigger] views_of(batch@)[k])) && (
        batch@.len() > u32::MAX || spec_encode_chunk(views_of(batch@)).len() > MAX_CHUNK_BYTES)),
{
    match encode_chunk(batch) {
        Ok(encoded) => match deflate_compress(&encoded) {
            Ok(c) => Ok(c),
            Err(_) => {
                proof {
                    assert(false);
                }
                vstd::pervasive::unreached()
            },
        },
        Err(e) => Err(e),
    }
}

/// Restores a sealed artifact: reverses the codec, allowing a decompressed
/// chunk of at most `capacity` bytes, then decodes the container.
///
/// Succeeds exactly when the artifact is a well-formed DEFLATE stream whose
/// payload fits `capacity` and decodes as a chunk, and then returns exactly
/// the records of that chunk; the error kind says which of the two stages
/// rejected the artifact.
pub fn restore_chunk(c: &Vec<u8>, capacity: u64) -> (r: Result<Vec<Record>, RestoreError>)
    requires
        capacity < u64::MAX,
    ensures
        r matches Ok(v) ==> (deflate_inverse(c@) matches Some(raw) && raw.len() <= capacity
            && spec_decode_chunk(raw) == Some(views_of(v@))),
        r == Err::<Vec<Record>, RestoreError>(RestoreError::Decompression) <==> !(deflate_inverse(
            c@,
        ) matches Some(raw) && raw.len() <= capacity),
        r == Err::<Vec<Record>, RestoreError>(RestoreError::Decoding) <==> (deflate_inverse(c@)
            matches Some(raw) && raw.len() <= capacity && spec_decode_chunk(raw) is None),
{
    match deflate_decompress(c, capacity + 1) {
        Ok(raw) => {
            if raw.len() as u64 > capacity {
                return Err(RestoreError::Decompression);
            }
            match decode_chunk(&raw) {
                Ok(v) => Ok(v),
                Err(_) => Err(RestoreError::Decoding),
            }
        },
        Err(_) => Err(RestoreError::Decompression),
    }
}

/// Pipeline round-trip law: the artifact sealed from any encodable batch
/// restores, under any capacity at least the chunk size limit, to exactly
/// that batch, in order and content. Combines the contracts of
/// [`seal_chunk`] and [`restore_chunk`] with the container round trip.
pub proof fn lemma_sealed_round_trip(rs: Seq<RecordView>, c: Seq<u8>, capacity: u64)
    requires
        chunk_encodable(rs),
        deflate_inverse(c) == Some(spec_encode_chunk(rs)),
        MAX_CHUNK_BYTES <= capacity,
    ensures
        deflate_inverse(c) matches Some(raw) && raw.len() <= capacity && spec_decode_chunk(raw)
            == Some(rs),
{
    crate::codec::lemma_chunk_round_trip(rs);
}

} // verus!
