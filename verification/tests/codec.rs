use opensensor::codec::{decode_chunk, encode_chunk, MAX_CHUNK_BYTES, MAX_PAYLOAD_BYTES};
use opensensor::compress::{restore_chunk, seal_chunk};
use opensensor::error::{DecodeError, EncodeError, RestoreError};
use opensensor::record::Record;

fn rec(partition: u32, offset: u64, timestamp_ns: u64, payload: Option<Vec<u8>>) -> Record {
    Record { partition, offset, timestamp_ns, payload }
}

#[test]
fn encode_one_record_exact_bytes() {
    let batch = vec![rec(1, 2, 3, Some(vec![9, 8]))];
    let bytes = encode_chunk(&batch).unwrap();
    let expected: Vec<u8> = vec![
        1, // format version
        1, 0, 0, 0, // record count
        1, 0, 0, 0, // partition
        2, 0, 0, 0, 0, 0, 0, 0, // offset
        3, 0, 0, 0, 0, 0, 0, 0, // timestamp
        1, // payload present
        2, 0, 0, 0, // payload length
        9, 8, // payload
    ];
    assert_eq!(bytes, expected);
}

#[test]
fn encode_absent_payload_exact_bytes() {
    let batch = vec![rec(0, 0, 0, None)];
    let bytes = encode_chunk(&batch).unwrap();
    let expected: Vec<u8> = vec![
        1, // format version
        1, 0, 0, 0, // record count
        0, 0, 0, 0, // partition
        0, 0, 0, 0, 0, 0, 0, 0, // offset
        0, 0, 0, 0, 0, 0, 0, 0, // timestamp
        0, // payload absent
        0, 0, 0, 0, // payload length
    ];
    assert_eq!(bytes, expected);
}

#[test]
fn decode_inverts_encode() {
    let batch = vec![
        rec(0, 10, 111, Some(vec![1, 2, 3])),
        rec(3, 11, 222, None),
        rec(7, 12, 333, Some(vec![])),
        rec(u32::MAX, u64::MAX, u64::MAX, Some(vec![255; 100])),
    ];
    let bytes = encode_chunk(&batch).unwrap();
    let back = decode_chunk(&bytes).unwrap();
    assert_eq!(back.len(), batch.len());
    for (a, b) in batch.iter().zip(back.iter()) {
        assert_eq!(a.partition, b.partition);
        assert_eq!(a.offset, b.offset);
        assert_eq!(a.timestamp_ns, b.timestamp_ns);
        assert_eq!(a.payload, b.payload);
    }
}

#[test]
fn decode_empty_batch() {
    let batch: Vec<Record> = vec![];
    let bytes = encode_chunk(&batch).unwrap();
    assert_eq!(bytes, vec![1, 0, 0, 0, 0]);
    let back = decode_chunk(&bytes).unwrap();
    assert!(back.is_empty());
}

#[test]
fn decode_rejects_malformed_chunks() {
    // Too short for a header.
    assert_eq!(decode_chunk(&vec![]), Err(DecodeError::Malformed));
    assert_eq!(decode_chunk(&vec![1, 0, 0, 0]), Err(DecodeError::Malformed));
    // Wrong version byte.
    assert_eq!(decode_chunk(&vec![2, 0, 0, 0, 0]), Err(DecodeError::Malformed));
    // Count says one record but none follows.
    assert_eq!(decode_chunk(&vec![1, 1, 0, 0, 0]), Err(DecodeError::Malformed));
    // Trailing byte after a well-formed empty chunk.
    assert_eq!(decode_chunk(&vec![1, 0, 0, 0, 0, 0]), Err(DecodeError::Malformed));
    // A record with an undefined presence byte.
    let batch = vec![rec(0, 0, 0, None)];
    let mut bytes = encode_chunk(&batch).unwrap();
    bytes[25] = 2;
    assert_eq!(decode_chunk(&bytes), Err(DecodeError::Malformed));
    // Absent payload with a nonzero length field.
    let mut bytes2 = encode_chunk(&batch).unwrap();
    bytes2[26] = 1;
    assert_eq!(decode_chunk(&bytes2), Err(DecodeError::Malformed));
    // Payload length pointing past the end.
    let batch3 = vec![rec(0, 0, 0, Some(vec![9]))];
    let mut bytes3 = encode_chunk(&batch3).unwrap();
    bytes3[26] = 200;
    assert_eq!(decode_chunk(&bytes3), Err(DecodeError::Malformed));
}

#[test]
fn encode_rejects_oversized_payload() {
    let too_big = vec![0u8; MAX_PAYLOAD_BYTES as usize + 1];
    let batch = vec![rec(0, 0, 0, Some(vec![1])), rec(0, 1, 0, Some(too_big))];
    assert_eq!(encode_chunk(&batch), Err(EncodeError::OversizedPayload));
}

#[test]
fn encode_rejects_oversized_chunk() {
    // Enough records at the payload limit to pass the chunk size limit.
    let n = (MAX_CHUNK_BYTES / MAX_PAYLOAD_BYTES) as usize + 1;
    let mut batch = Vec::new();
    for i in 0..n {
        batch.push(rec(0, i as u64, 0, Some(vec![0u8; MAX_PAYLOAD_BYTES as usize])));
    }
    assert_eq!(encode_chunk(&batch), Err(EncodeError::OversizedChunk));
}

#[test]
fn sealed_chunk_restores_to_batch() {
    // The full round trip of one flush artifact: encode, compress,
    // decompress, decode, back to the same records in the same order.
    let batch = vec![
        rec(0, 1, 1_700_000_000_000_000_001, Some(vec![1, 1, 1])),
        rec(1, 2, 1_700_000_000_000_000_002, Some(vec![2])),
        rec(0, 3, 1_700_000_000_000_000_003, Some((0..=255).collect())),
    ];
    let artifact = seal_chunk(&batch).unwrap();
    let back = restore_chunk(&artifact, MAX_CHUNK_BYTES).unwrap();
    assert_eq!(back.len(), batch.len());
    for (a, b) in batch.iter().zip(back.iter()) {
        assert_eq!(a.partition, b.partition);
        assert_eq!(a.offset, b.offset);
        assert_eq!(a.timestamp_ns, b.timestamp_ns);
        assert_eq!(a.payload, b.payload);
    }
}

#[test]
fn sealed_artifact_is_really_compressed() {
    // A batch of repetitive payloads: the artifact is smaller than the
    // encoded chunk, so the codec did not hand its input back unchanged,
    // and it is not the raw chunk bytes either.
    let batch = vec![rec(0, 1, 2, Some(vec![7u8; 10_000]))];
    let encoded = encode_chunk(&batch).unwrap();
    let artifact = seal_chunk(&batch).unwrap();
    assert!(artifact.len() < encoded.len());
    assert_ne!(artifact, encoded);
    // And the raw chunk bytes do not restore: they are not a codec stream
    // that yields a chunk.
    assert!(restore_chunk(&encoded, MAX_CHUNK_BYTES).is_err());
}

#[test]
fn restore_rejects_undersized_capacity() {
    let batch = vec![rec(0, 1, 2, Some(vec![5u8; 1000]))];
    let artifact = seal_chunk(&batch).unwrap();
    assert_eq!(restore_chunk(&artifact, 10), Err(RestoreError::Decompression));
}

#[test]
fn restore_rejects_compressed_garbage() {
    // A well-formed codec stream whose payload is not a chunk.
    let garbage: Vec<u8> = (0u16..300).map(|i| (i % 251) as u8).collect();
    let mut enc =
        flate2::bufread::DeflateEncoder::new(garbage.as_slice(), flate2::Compression::default());
    let mut stream = Vec::new();
    std::io::Read::read_to_end(&mut enc, &mut stream).unwrap();
    assert_eq!(restore_chunk(&stream, MAX_CHUNK_BYTES), Err(RestoreError::Decoding));
}

#[test]
fn seal_reports_the_encoding_fault() {
    let too_big = vec![0u8; MAX_PAYLOAD_BYTES as usize + 1];
    let batch = vec![rec(0, 0, 0, Some(too_big))];
    assert_eq!(seal_chunk(&batch), Err(EncodeError::OversizedPayload));
}

#[test]
fn sealing_is_deterministic() {
    // Compression is a pure function of the encoded bytes: sealing the same
    // batch twice gives the identical artifact.
    let batch = vec![rec(2, 9, 100, Some(vec![3, 1, 4, 1, 5, 9, 2, 6]))];
    let first = seal_chunk(&batch).unwrap();
    let second = seal_chunk(&batch).unwrap();
    assert_eq!(first, second);
}
