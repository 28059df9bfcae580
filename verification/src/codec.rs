//! The archival chunk format: a batch of records encoded as one
//! self-describing binary container.
//!
//! Layout, all integers little-endian:
//! - one version byte;
//! - the record count as four bytes;
//! - for each record, in batch order: partition (four bytes), offset (eight
//!   bytes), ingestion timestamp (eight bytes), one payload-presence byte
//!   (zero or one), the payload length as four bytes (zero when absent), and
//!   the payload bytes themselves.
//!
//! Decoding is the exact inverse of encoding, which is proved as
//! [`lemma_chunk_round_trip`].

use vstd::bytes::{
    lemma_auto_spec_u32_to_from_le_bytes, lemma_auto_spec_u64_to_from_le_bytes,
    spec_u32_from_le_bytes, spec_u32_to_le_bytes, spec_u64_from_le_bytes, spec_u64_to_le_bytes,
    u32_from_le_bytes, u32_to_le_bytes, u64_from_le_bytes, u64_to_le_bytes,
};
use vstd::prelude::*;
use vstd::slice::{slice_index_get, slice_subrange, slice_to_vec};

use crate::error::{DecodeError, EncodeError};
use crate::record::{views_of, Record, RecordView};

verus! {

/// First byte of every archival chunk; names this layout of the container.
pub const FORMAT_VERSION: u8 = 1;

/// Upper bound on a single record's payload, in bytes.
pub const MAX_PAYLOAD_BYTES: u64 = 0x10_0000;

/// Upper bound on one encoded chunk, in bytes; well under the addressable
/// limit of the count and length fields.
pub const MAX_CHUNK_BYTES: u64 = 0x400_0000;

/// Bytes of the fixed-size part of one encoded record: partition, offset,
/// timestamp, presence byte, payload length.
pub const RECORD_HEADER_BYTES: u64 = 25;

/// Bytes of the chunk header: the version byte and the record count.
pub const CHUNK_HEADER_BYTES: u64 = 5;

/// Whether one record fits the per-record schema.
pub open spec fn record_encodable(r: RecordView) -> bool {
    match r.payload {
        Some(p) => p.len() <= MAX_PAYLOAD_BYTES,
        None => true,
    }
}

/// The encoding of one record.
pub open spec fn spec_encode_record(r: RecordView) -> Seq<u8> {
    spec_u32_to_le_bytes(r.partition) + spec_u64_to_le_bytes(r.offset) + spec_u64_to_le_bytes(
        r.timestamp_ns,
    ) + (match r.payload {
        Some(p) => seq![1u8] + spec_u32_to_le_bytes(p.len() as u32) + p,
        None => seq![0u8] + spec_u32_to_le_bytes(0u32),
    })
}

/// The concatenated encodings of a sequence of records, in order.
pub open spec fn spec_encode_records(rs: Seq<RecordView>) -> Seq<u8>
    decreases rs.len(),
{
    if rs.len() == 0 {
        Seq::empty()
    } else {
        spec_encode_record(rs[0]) + spec_encode_records(rs.drop_first())
    }
}

/// The encoding of a whole batch: version byte, record count, records.
pub open spec fn spec_encode_chunk(rs: Seq<RecordView>) -> Seq<u8> {
    seq![FORMAT_VERSION] + spec_u32_to_le_bytes(rs.len() as u32) + spec_encode_records(rs)
}

/// Whether a batch can be encoded at all: every record fits the per-record
/// schema, the count fits its field, and the container stays under the
/// chunk size limit.
pub open spec fn chunk_encodable(rs: Seq<RecordView>) -> bool {
    &&& forall|i: int| 0 <= i < rs.len() ==> record_encodable(#[trigger] rs[i])
    &&& rs.len() <= u32::MAX
    &&& spec_encode_chunk(rs).len() <= MAX_CHUNK_BYTES
}

/// Parses one encoded record of `s` starting at `pos`: the record and the
/// position just after it, or `None` when the bytes there are not a
/// well-formed record encoding.
pub open spec fn spec_parse_record(s: Seq<u8>, pos: int) -> Option<(RecordView, int)> {
    if 0 <= pos && pos + RECORD_HEADER_BYTES <= s.len() {
        let partition = spec_u32_from_le_bytes(s.subrange(pos, pos + 4));
        let offset = spec_u64_from_le_bytes(s.subrange(pos + 4, pos + 12));
        let timestamp_ns = spec_u64_from_le_bytes(s.subrange(pos + 12, pos + 20));
        let flag = s[pos + 20];
        let plen = spec_u32_from_le_bytes(s.subrange(pos + 21, pos + 25));
        if flag == 0u8 {
            if plen == 0u32 {
                Some(
                    (
                        RecordView { partition, offset, timestamp_ns, payload: None },
                        pos + RECORD_HEADER_BYTES,
                    ),
                )
            } else {
                None
            }
        } else if flag == 1u8 {
            if pos + RECORD_HEADER_BYTES + plen <= s.len() {
                Some(
                    (
                        RecordView {
                            partition,
                            offset,
                            timestamp_ns,
                            payload: Some(
                                s.subrange(
                                    pos + RECORD_HEADER_BYTES,
                                    pos + RECORD_HEADER_BYTES + plen,
                                ),
                            ),
                        },
                        pos + RECORD_HEADER_BYTES + plen,
                    ),
                )
            } else {
                None
            }
        } else {
            None
        }
    } else {
        None
    }
}

/// Parses `n` consecutive record encodings of `s` starting at `pos`.
pub open spec fn spec_parse_records(s: Seq<u8>, pos: int, n: nat) -> Option<(Seq<RecordView>, int)>
    decreases n,
{
    if n == 0 {
        Some((Seq::empty(), pos))
    } else {
        match spec_parse_record(s, pos) {
            Some((r, pos2)) => match spec_parse_records(s, pos2, (n - 1) as nat) {
                Some((rs, pos3)) => Some((seq![r] + rs, pos3)),
                None => None,
            },
            None => None,
        }
    }
}

/// Decodes a whole chunk: the batch it encodes, or `None` when the bytes are
/// not a well-formed chunk or leave trailing bytes.
pub open spec fn spec_decode_chunk(s: Seq<u8>) -> Option<Seq<RecordView>> {
    if s.len() >= CHUNK_HEADER_BYTES && s[0] == FORMAT_VERSION {
        let n = spec_u32_from_le_bytes(s.subrange(1, 5));
        match spec_parse_records(s, CHUNK_HEADER_BYTES as int, n as nat) {
            Some((rs, end)) => if end == s.len() {
                Some(rs)
            } else {
                None
            },
            None => None,
        }
    } else {
        None
    }
}

/// The length of one record's encoding: the fixed header plus the payload.
pub proof fn lemma_encode_record_len(r: RecordView)
    ensures
        spec_encode_record(r).len() == RECORD_HEADER_BYTES + (match r.payload {
            Some(p) => p.len(),
            None => 0nat,
        }),
{
    lemma_auto_spec_u32_to_from_le_bytes();
    lemma_auto_spec_u64_to_from_le_bytes();
}

/// Record encodings concatenate: encoding `a + b` is the encoding of `a`
/// followed by the encoding of `b`.
pub proof fn lemma_encode_records_concat(a: Seq<RecordView>, b: Seq<RecordView>)
    ensures
        spec_encode_records(a + b) == spec_encode_records(a) + spec_encode_records(b),
    decreases a.len(),
{
    if a.len() == 0 {
        assert(a + b =~= b);
        assert(spec_encode_records(a) + spec_encode_records(b) =~= spec_encode_records(b));
    } else {
        lemma_encode_records_concat(a.drop_first(), b);
        assert((a + b).drop_first() =~= a.drop_first() + b);
        assert((a + b)[0] == a[0]);
        assert(spec_encode_records(a + b) == spec_encode_record(a[0]) + (spec_encode_records(
            a.drop_first(),
        ) + spec_encode_records(b)));
        assert(spec_encode_record(a[0]) + (spec_encode_records(a.drop_first())
            + spec_encode_records(b)) =~= (spec_encode_record(a[0]) + spec_encode_records(
            a.drop_first(),
        )) + spec_encode_records(b));
    }
}

/// Parsing a record at a position where one record's encoding lies yields
/// exactly that record and stops just after it.
pub proof fn lemma_parse_record_at(s: Seq<u8>, pos: int, r: RecordView)
    requires
        record_encodable(r),
        0 <= pos,
        pos + spec_encode_record(r).len() <= s.len(),
        s.subrange(pos, pos + spec_encode_record(r).len()) == spec_encode_record(r),
    ensures
        spec_parse_record(s, pos) == Some((r, pos + spec_encode_record(r).len())),
{
    lemma_auto_spec_u32_to_from_le_bytes();
    lemma_auto_spec_u64_to_from_le_bytes();
    let enc = spec_encode_record(r);
    lemma_encode_record_len(r);
    let l = enc.len() as int;
    assert forall|a: int, b: int| 0 <= a <= b <= l implies s.subrange(pos + a, pos + b)
        =~= enc.subrange(a, b) by {
        assert forall|i: int| 0 <= i < b - a implies s.subrange(pos + a, pos + b)[i] == enc.subrange(
            a,
            b,
        )[i] by {
            assert(s.subrange(pos + a, pos + b)[i] == s[pos + a + i]);
            assert(s[pos + a + i] == s.subrange(pos, pos + l)[a + i]);
        }
    }
    match r.payload {
        Some(p) => {
            assert(enc.subrange(0, 4) =~= spec_u32_to_le_bytes(r.partition));
            assert(enc.subrange(4, 12) =~= spec_u64_to_le_bytes(r.offset));
            assert(enc.subrange(12, 20) =~= spec_u64_to_le_bytes(r.timestamp_ns));
            assert(enc[20] == 1u8);
            assert(enc.subrange(21, 25) =~= spec_u32_to_le_bytes(p.len() as u32));
            assert(enc.subrange(25, 25 + p.len() as int) =~= p);
            assert(s[pos + 20] == s.subrange(pos + 20, pos + 21)[0]);
            assert(s.subrange(pos + 20, pos + 21) =~= enc.subrange(20, 21));
            assert(p.len() as u32 as nat == p.len());
            assert(spec_u32_from_le_bytes(s.subrange(pos + 21, pos + 25)) == p.len() as u32);
            assert(spec_parse_record(s, pos) matches Some((pr, end)) && pr == r && end == pos + l);
        },
        None => {
            assert(enc.subrange(0, 4) =~= spec_u32_to_le_bytes(r.partition));
            assert(enc.subrange(4, 12) =~= spec_u64_to_le_bytes(r.offset));
            assert(enc.subrange(12, 20) =~= spec_u64_to_le_bytes(r.timestamp_ns));
            assert(enc[20] == 0u8);
            assert(enc.subrange(21, 25) =~= spec_u32_to_le_bytes(0u32));
            assert(s[pos + 20] == s.subrange(pos + 20, pos + 21)[0]);
            assert(s.subrange(pos + 20, pos + 21) =~= enc.subrange(20, 21));
            assert(spec_parse_record(s, pos) matches Some((pr, end)) && pr == r && end == pos + l);
        },
    }
}

/// Parsing `rs.len()` records at a position where the concatenated encodings
/// of `rs` lie yields exactly `rs` and stops just after them.
pub proof fn lemma_parse_records_of_encoding(s: Seq<u8>, pos: int, rs: Seq<RecordView>)
    requires
        forall|i: int| 0 <= i < rs.len() ==> record_encodable(#[trigger] rs[i]),
        0 <= pos,
        pos + spec_encode_records(rs).len() <= s.len(),
        s.subrange(pos, pos + spec_encode_records(rs).len()) == spec_encode_records(rs),
    ensures
        spec_parse_records(s, pos, rs.len()) == Some(
            (rs, pos + spec_encode_records(rs).len()),
        ),
    decreases rs.len(),
{
    if rs.len() == 0 {
        assert(spec_parse_records(s, pos, 0) == Some((Seq::<RecordView>::empty(), pos)));
        assert(rs =~= Seq::<RecordView>::empty());
    } else {
        let r0 = rs[0];
        let rest = rs.drop_first();
        let enc0 = spec_encode_record(r0);
        let enc_rest = spec_encode_records(rest);
        let enc = spec_encode_records(rs);
        assert(enc == enc0 + enc_rest);
        assert(s.subrange(pos, pos + enc0.len()) =~= enc0) by {
            assert forall|i: int| 0 <= i < enc0.len() implies s.subrange(
                pos,
                pos + enc0.len(),
            )[i] == enc0[i] by {
                assert(s.subrange(pos, pos + enc0.len())[i] == s[pos + i]);
                assert(s[pos + i] == s.subrange(pos, pos + enc.len() as int)[i]);
                assert(enc[i] == enc0[i]);
            }
        }
        lemma_parse_record_at(s, pos, r0);
        let pos2 = pos + enc0.len() as int;
        assert(s.subrange(pos2, pos2 + enc_rest.len()) =~= enc_rest) by {
            assert forall|i: int| 0 <= i < enc_rest.len() implies s.subrange(
                pos2,
                pos2 + enc_rest.len(),
            )[i] == enc_rest[i] by {
                assert(s.subrange(pos2, pos2 + enc_rest.len())[i] == s[pos2 + i]);
                assert(s[pos2 + i] == s.subrange(pos, pos + enc.len() as int)[enc0.len() + i]);
                assert(enc[enc0.len() + i] == enc_rest[i]);
            }
        }
        lemma_parse_records_of_encoding(s, pos2, rest);
        assert(seq![r0] + rest =~= rs);
    }
}

/// One more record extends the concatenated encodings by that record's
/// encoding.
pub proof fn lemma_encode_records_take_step(rs: Seq<RecordView>, i: int)
    requires
        0 <= i < rs.len(),
    ensures
        spec_encode_records(rs.take(i + 1)) == spec_encode_records(rs.take(i)) + spec_encode_record(
            rs[i],
        ),
{
    assert(rs.take(i + 1) =~= rs.take(i) + seq![rs[i]]);
    lemma_encode_records_concat(rs.take(i), seq![rs[i]]);
    assert(seq![rs[i]].drop_first() =~= Seq::<RecordView>::empty());
    assert(seq![rs[i]][0] == rs[i]);
    assert(spec_encode_records(Seq::<RecordView>::empty()) == Seq::<u8>::empty());
    assert(spec_encode_records(seq![rs[i]]) == spec_encode_record(rs[i]) + Seq::<u8>::empty());
    assert(spec_encode_record(rs[i]) + Seq::<u8>::empty() =~= spec_encode_record(rs[i]));
}

/// A prefix of a batch never encodes to more bytes than the whole batch.
pub proof fn lemma_encode_records_take_len(rs: Seq<RecordView>, i: int)
    requires
        0 <= i <= rs.len(),
    ensures
        spec_encode_records(rs.take(i)).len() <= spec_encode_records(rs).len(),
{
    assert(rs =~= rs.take(i) + rs.skip(i));
    lemma_encode_records_concat(rs.take(i), rs.skip(i));
}

/// Round-trip law of the container format: decoding the encoding of any
/// encodable batch yields exactly that batch, in order and content.
pub proof fn lemma_chunk_round_trip(rs: Seq<RecordView>)
    requires
        chunk_encodable(rs),
    ensures
        spec_decode_chunk(spec_encode_chunk(rs)) == Some(rs),
{
    lemma_auto_spec_u32_to_from_le_bytes();
    let s = spec_encode_chunk(rs);
    let count_bytes = spec_u32_to_le_bytes(rs.len() as u32);
    let body = spec_encode_records(rs);
    assert(s.len() == 5 + body.len());
    assert(s[0] == FORMAT_VERSION);
    assert(s.subrange(1, 5) =~= count_bytes);
    assert(spec_u32_from_le_bytes(s.subrange(1, 5)) == rs.len() as u32);
    assert(rs.len() as u32 as nat == rs.len());
    assert(s.subrange(5, 5 + body.len() as int) =~= body);
    lemma_parse_records_of_encoding(s, 5, rs);
}

} // verus!

verus! {

/// Appends the bytes of `src` to `out`.
fn push_bytes(out: &mut Vec<u8>, src: &Vec<u8>)
    ensures
        final(out)@ == old(out)@ + src@,
{
    let n = src.len();
    let mut i: usize = 0;
    proof {
        assert(out@ =~= old(out)@ + src@.take(0));
    }
    while i < n
        invariant
            i <= n,
            n == src@.len(),
            out@ == old(out)@ + src@.take(i as int),
        decreases n - i,
    {
        out.push(src[i]);
        proof {
            assert(out@ =~= old(out)@ + src@.take(i + 1));
        }
        i = i + 1;
    }
    proof {
        assert(src@.take(n as int) =~= src@);
    }
}

/// Encodes a batch of records into one archival chunk.
///
/// Succeeds exactly on encodable batches and then returns the chunk bytes;
/// otherwise reports whether a record's payload broke the per-record schema
/// or the container broke the size limits.
pub fn encode_chunk(batch: &Vec<Record>) -> (r: Result<Vec<u8>, EncodeError>)
    ensures
        r matches Ok(bytes) ==> chunk_encodable(views_of(batch@)) && bytes@ == spec_encode_chunk(
            views_of(batch@),
        ),
        r is Ok <==> chunk_encodable(views_of(batch@)),
        r == Err::<Vec<u8>, EncodeError>(EncodeError::OversizedPayload) <==> (exists|k: int|
            0 <= k < batch@.len() && !record_encodable(#[trigger] views_of(batch@)[k])),
        r == Err::<Vec<u8>, EncodeError>(EncodeError::OversizedChunk) <==> ((forall|k: int|
            0 <= k < batch@.len() ==> record_encodable(#[trigger] views_of(batch@)[k])) && (
        batch@.len() > u32::MAX || spec_encode_chunk(views_of(batch@)).len() > MAX_CHUNK_BYTES)),
{
    let ghost vs = views_of(batch@);
    let n = batch.len();
    proof {
        assert(vs.len() == n);
    }
    // Every payload must fit the per-record schema.
    let mut i: usize = 0;
    while i < n
        invariant
            i <= n,
            n == batch@.len(),
            vs == views_of(batch@),
            vs.len() == n,
            forall|k: int| 0 <= k < i ==> record_encodable(#[trigger] vs[k]),
        decreases n - i,
    {
        match &batch[i].payload {
            Some(p) => {
                if p.len() as u64 > MAX_PAYLOAD_BYTES {
                    proof {
                        assert(!record_encodable(vs[i as int]));
                    }
                    return Err(EncodeError::OversizedPayload);
                }
            },
            None => {},
        }
        proof {
            assert(record_encodable(vs[i as int]));
        }
        i = i + 1;
    }
    // The record count must fit its four-byte field.
    if n as u64 > u32::MAX as u64 {
        return Err(EncodeError::OversizedChunk);
    }
    // The whole container must stay under the chunk size limit.
    let mut total: u64 = CHUNK_HEADER_BYTES;
    proof {
        assert(spec_encode_records(vs.take(0)) == Seq::<u8>::empty());
    }
    let mut i: usize = 0;
    while i < n
        invariant
            i <= n,
            n == batch@.len(),
            vs == views_of(batch@),
            vs.len() == n,
            forall|k: int| 0 <= k < n ==> record_encodable(#[trigger] vs[k]),
            total == CHUNK_HEADER_BYTES + spec_encode_records(vs.take(i as int)).len(),
            total <= MAX_CHUNK_BYTES,
        decreases n - i,
    {
        let plen: u64 = match &batch[i].payload {
            Some(p) => p.len() as u64,
            None => 0,
        };
        proof {
            lemma_encode_records_take_step(vs, i as int);
            lemma_encode_record_len(vs[i as int]);
        }
        total = total + RECORD_HEADER_BYTES + plen;
        i = i + 1;
        if total > MAX_CHUNK_BYTES {
            proof {
                lemma_auto_spec_u32_to_from_le_bytes();
                lemma_encode_records_take_len(vs, i as int);
                assert(spec_encode_chunk(vs).len() == 5 + spec_encode_records(vs).len());
            }
            return Err(EncodeError::OversizedChunk);
        }
    }
    proof {
        lemma_auto_spec_u32_to_from_le_bytes();
        assert(vs.take(n as int) =~= vs);
        assert(spec_encode_chunk(vs).len() == 5 + spec_encode_records(vs).len());
    }
    // Build the container; nothing can fail from here on.
    let count: u32 = n as u32;
    let mut out: Vec<u8> = Vec::new();
    out.push(FORMAT_VERSION);
    let cb = u32_to_le_bytes(count);
    push_bytes(&mut out, &cb);
    proof {
        assert(out@ =~= seq![FORMAT_VERSION] + spec_u32_to_le_bytes(count) + spec_encode_records(
            vs.take(0),
        ));
    }
    let mut i: usize = 0;
    while i < n
        invariant
            i <= n,
            n == batch@.len(),
            vs == views_of(batch@),
            vs.len() == n,
            count == n as u32,
            forall|k: int| 0 <= k < n ==> record_encodable(#[trigger] vs[k]),
            out@ == seq![FORMAT_VERSION] + spec_u32_to_le_bytes(count) + spec_encode_records(
                vs.take(i as int),
            ),
        decreases n - i,
    {
        let ghost prev = out@;
        let rec = &batch[i];
        let pb = u32_to_le_bytes(rec.partition);
        push_bytes(&mut out, &pb);
        let ob = u64_to_le_bytes(rec.offset);
        push_bytes(&mut out, &ob);
        let tb = u64_to_le_bytes(rec.timestamp_ns);
        push_bytes(&mut out, &tb);
        match &rec.payload {
            Some(p) => {
                out.push(1u8);
                let lb = u32_to_le_bytes(p.len() as u32);
                push_bytes(&mut out, &lb);
                push_bytes(&mut out, p);
                proof {
                    assert(out@ =~= prev + spec_encode_record(vs[i as int]));
                }
            },
            None => {
                out.push(0u8);
                let lb = u32_to_le_bytes(0u32);
                push_bytes(&mut out, &lb);
                proof {
                    assert(out@ =~= prev + spec_encode_record(vs[i as int]));
                }
            },
        }
        proof {
            lemma_encode_records_take_step(vs, i as int);
            assert(out@ =~= seq![FORMAT_VERSION] + spec_u32_to_le_bytes(count)
                + spec_encode_records(vs.take(i + 1)));
        }
        i = i + 1;
    }
    proof {
        assert(vs.take(n as int) =~= vs);
    }
    Ok(out)
}

} // verus!

verus! {

/// Parses one record at `pos`, mirroring [`spec_parse_record`] exactly.
fn parse_record(s: &[u8], pos: usize) -> (r: Result<(Record, usize), DecodeError>)
    requires
        pos <= s@.len(),
    ensures
        r matches Ok((rec, end)) ==> spec_parse_record(s@, pos as int) == Some(
            (rec@, end as int),
        ) && pos < end <= s@.len(),
        r is Err ==> spec_parse_record(s@, pos as int) is None,
{
    let len = s.len();
    if len - pos < 25 {
        return Err(DecodeError::Malformed);
    }
    let partition = u32_from_le_bytes(slice_subrange(s, pos, pos + 4));
    let offset = u64_from_le_bytes(slice_subrange(s, pos + 4, pos + 12));
    let timestamp_ns = u64_from_le_bytes(slice_subrange(s, pos + 12, pos + 20));
    let flag = *slice_index_get(s, pos + 20);
    let plen32 = u32_from_le_bytes(slice_subrange(s, pos + 21, pos + 25));
    let plen = plen32 as usize;
    if flag == 0 {
        if plen32 == 0 {
            Ok((Record { partition, offset, timestamp_ns, payload: None }, pos + 25))
        } else {
            Err(DecodeError::Malformed)
        }
    } else if flag == 1 {
        if len - (pos + 25) >= plen {
            let pbytes = slice_to_vec(slice_subrange(s, pos + 25, pos + 25 + plen));
            let rec = Record { partition, offset, timestamp_ns, payload: Some(pbytes) };
            proof {
                assert(spec_parse_record(s@, pos as int) matches Some((pr, end)) && pr == rec@
                    && end == pos + 25 + plen);
            }
            Ok((rec, pos + 25 + plen))
        } else {
            Err(DecodeError::Malformed)
        }
    } else {
        Err(DecodeError::Malformed)
    }
}

/// After `done` records have been parsed and `pos` reached, the parse of the
/// whole chunk body succeeds exactly when the parse of the remaining `n - i`
/// records succeeds, and then yields `done` followed by the rest.
pub open spec fn parse_composes(
    s: Seq<u8>,
    n: nat,
    done: Seq<RecordView>,
    i: nat,
    pos: int,
) -> bool
    recommends
        i <= n,
{
    match spec_parse_records(s, pos, (n - i) as nat) {
        Some((rest, end)) => spec_parse_records(s, CHUNK_HEADER_BYTES as int, n) == Some(
            (done + rest, end),
        ),
        None => spec_parse_records(s, CHUNK_HEADER_BYTES as int, n) is None,
    }
}

/// Decodes one archival chunk back into its records.
///
/// Succeeds exactly on the byte sequences that [`spec_decode_chunk`] accepts
/// (well-formed version byte, count, records, and no trailing bytes), and
/// then returns the encoded records in their original order.
pub fn decode_chunk(bytes: &Vec<u8>) -> (r: Result<Vec<Record>, DecodeError>)
    ensures
        r matches Ok(v) ==> spec_decode_chunk(bytes@) == Some(views_of(v@)),
        r is Err <==> spec_decode_chunk(bytes@) is None,
{
    let s = bytes.as_slice();
    let len = s.len();
    if len < 5 {
        return Err(DecodeError::Malformed);
    }
    if *slice_index_get(s, 0) != FORMAT_VERSION {
        return Err(DecodeError::Malformed);
    }
    let n32 = u32_from_le_bytes(slice_subrange(s, 1, 5));
    let n = n32 as usize;
    let mut out: Vec<Record> = Vec::new();
    let mut pos: usize = 5;
    let mut i: usize = 0;
    proof {
        assert(views_of(out@) =~= Seq::<RecordView>::empty());
        assert(spec_parse_records(s@, 5, (n - i) as nat) == spec_parse_records(s@, 5, n as nat));
        assert(parse_composes(s@, n as nat, views_of(out@), i as nat, pos as int)) by {
            match spec_parse_records(s@, 5, n as nat) {
                Some((rest, end)) => {
                    assert(views_of(out@) + rest =~= rest);
                },
                None => {},
            }
        }
    }
    while i < n
        invariant
            s@ == bytes@,
            len == s@.len(),
            len >= 5,
            s@[0] == FORMAT_VERSION,
            n == spec_u32_from_le_bytes(s@.subrange(1, 5)) as nat,
            i <= n,
            5 <= pos <= len,
            out@.len() == i,
            parse_composes(s@, n as nat, views_of(out@), i as nat, pos as int),
        decreases n - i,
    {
        let ghost done = views_of(out@);
        match parse_record(s, pos) {
            Ok((rec, end)) => {
                proof {
                    let rem = (n - i) as nat;
                    assert(rem > 0);
                    match spec_parse_records(s@, end as int, (rem - 1) as nat) {
                        Some((rest2, fin)) => {
                            assert(spec_parse_records(s@, pos as int, rem) == Some(
                                (seq![rec@] + rest2, fin),
                            ));
                            assert(done + (seq![rec@] + rest2) =~= (done + seq![rec@]) + rest2);
                        },
                        None => {
                            assert(spec_parse_records(s@, pos as int, rem) is None);
                        },
                    }
                }
                out.push(rec);
                proof {
                    assert(views_of(out@) =~= done + seq![rec@]);
                }
                pos = end;
            },
            Err(_) => {
                proof {
                    let rem = (n - i) as nat;
                    assert(rem > 0);
                    assert(spec_parse_records(s@, pos as int, rem) is None);
                    assert(spec_parse_records(s@, 5, n as nat) is None);
                    assert(spec_decode_chunk(bytes@) is None);
                }
                return Err(DecodeError::Malformed);
            },
        }
        i = i + 1;
    }
    proof {
        assert(spec_parse_records(s@, pos as int, 0) == Some(
            (Seq::<RecordView>::empty(), pos as int),
        ));
        assert(views_of(out@) + Seq::<RecordView>::empty() =~= views_of(out@));
        assert(spec_parse_records(s@, 5, n as nat) == Some((views_of(out@), pos as int)));
    }
    if pos != len {
        proof {
            assert(spec_decode_chunk(bytes@) is None);
        }
        return Err(DecodeError::Malformed);
    }
    Ok(out)
}

} // verus!
