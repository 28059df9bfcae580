//! In-memory batching of consumed records up to a configured count.

use vstd::prelude::*;

use crate::record::{has_payload, views_of, Record, RecordView};

verus! {

/// Whether a batch is ready to be flushed: `Full` once the configured count
/// of records has been buffered, `Partial` before that.
#[derive(Clone, Copy, Debug, PartialEq, Eq, Structural)]
pub enum BatchState {
    /// The batch has fewer than `chunk_size` records.
    Partial,
    /// The batch has exactly `chunk_size` records and must be flushed.
    Full,
}

/// The records of `rs` that are archivable: those carrying a non-empty
/// payload, in their original order. Records without a payload are skipped
/// by the accumulator, so this is the buffer contents after appending `rs`
/// to an empty accumulator.
pub open spec fn kept(rs: Seq<RecordView>) -> Seq<RecordView>
    decreases rs.len(),
{
    if rs.len() == 0 {
        Seq::empty()
    } else if has_payload(rs.last()) {
        kept(rs.drop_last()).push(rs.last())
    } else {
        kept(rs.drop_last())
    }
}

/// The accumulator's answer after feeding the records `appended`, in order,
/// to an accumulator that was empty and is bounded by `chunk_size`.
pub open spec fn batch_state_after(chunk_size: u64, appended: Seq<RecordView>) -> BatchState {
    if kept(appended).len() == chunk_size {
        BatchState::Full
    } else {
        BatchState::Partial
    }
}

/// One appended record changes the kept buffer exactly when it carries a
/// payload; a record without one leaves the buffer as it was.
pub proof fn lemma_kept_push(rs: Seq<RecordView>, r: RecordView)
    ensures
        has_payload(r) ==> kept(rs.push(r)) == kept(rs).push(r),
        !has_payload(r) ==> kept(rs.push(r)) == kept(rs),
{
    assert(rs.push(r).drop_last() == rs);
    assert(rs.push(r).last() == r);
}

/// When every record carries a payload, none is skipped: the kept buffer is
/// the appended sequence itself.
pub proof fn lemma_kept_all(rs: Seq<RecordView>)
    requires
        forall|k: int| 0 <= k < rs.len() ==> has_payload(#[trigger] rs[k]),
    ensures
        kept(rs) == rs,
    decreases rs.len(),
{
    if rs.len() > 0 {
        lemma_kept_all(rs.drop_last());
        assert(kept(rs) == rs.drop_last().push(rs.last()));
        assert(rs.drop_last().push(rs.last()) == rs);
    } else {
        assert(kept(rs) == rs);
    }
}

/// Batch boundary law: appending exactly `chunk_size` records, each with a
/// payload, to an empty accumulator yields `Full` on the last append and
/// never before.
pub proof fn lemma_batch_boundary(chunk_size: u64, rs: Seq<RecordView>, i: int)
    requires
        0 < chunk_size,
        rs.len() == chunk_size,
        forall|k: int| 0 <= k < rs.len() ==> has_payload(#[trigger] rs[k]),
        0 <= i < rs.len(),
    ensures
        i + 1 == chunk_size ==> batch_state_after(chunk_size, rs.take(i + 1)) == BatchState::Full,
        i + 1 < chunk_size ==> batch_state_after(chunk_size, rs.take(i + 1)) == BatchState::Partial,
{
    let prefix = rs.take(i + 1);
    assert(forall|k: int| 0 <= k < prefix.len() ==> has_payload(#[trigger] prefix[k]));
    lemma_kept_all(prefix);
}

/// Empty-payload skip law: a record without a payload contributes nothing to
/// the eventual batch and leaves the accumulator's `Full`/`Partial` answer
/// unchanged.
pub proof fn lemma_empty_payload_skip(chunk_size: u64, rs: Seq<RecordView>, r: RecordView)
    requires
        !has_payload(r),
    ensures
        kept(rs.push(r)) == kept(rs),
        batch_state_after(chunk_size, rs.push(r)) == batch_state_after(chunk_size, rs),
{
    lemma_kept_push(rs, r);
}

/// Buffers consumed records in memory up to a configured count, independent
/// of the encoding format. Records without a payload are skipped rather than
/// buffered: that is a data-quality issue, not a pipeline failure.
pub struct Accumulator {
    /// The buffered records, in consumption order.
    pub buf: Vec<Record>,
    /// The configured maximum number of records per batch; always positive.
    pub chunk_size: u64,
}

impl Accumulator {
    /// The buffered records as their mathematical models.
    pub open spec fn buffered(&self) -> Seq<RecordView> {
        views_of(self.buf@)
    }

    /// Well-formedness: the bound is positive, the buffer never exceeds it,
    /// and everything buffered carries a payload.
    pub open spec fn wf(&self) -> bool {
        &&& self.chunk_size > 0
        &&& self.buf@.len() <= self.chunk_size
        &&& forall|k: int| 0 <= k < self.buf@.len() ==> has_payload(#[trigger] self.buf@[k]@)
    }

    /// Creates an empty accumulator bounded by `chunk_size` records.
    pub fn new(chunk_size: u64) -> (acc: Accumulator)
        requires
            chunk_size > 0,
        ensures
            acc.wf(),
            acc.buffered() == Seq::<RecordView>::empty(),
            acc.chunk_size == chunk_size,
    {
        let acc = Accumulator { buf: Vec::new(), chunk_size };
        proof {
            assert(acc.buffered() =~= Seq::<RecordView>::empty());
        }
        acc
    }

    /// Number of records currently buffered.
    pub fn len(&self) -> (n: usize)
        ensures
            n == self.buffered().len(),
    {
        self.buf.len()
    }

    /// Whether the buffer holds no records.
    pub fn is_empty(&self) -> (b: bool)
        ensures
            b == (self.buffered().len() == 0),
    {
        self.buf.len() == 0
    }

    /// Accepts one record. A record with a payload is buffered and the answer
    /// is `Full` exactly when the buffer has now reached `chunk_size`; a
    /// record without one is skipped and the answer stays `Partial`.
    pub fn append(&mut self, r: Record) -> (state: BatchState)
        requires
            old(self).wf(),
            old(self).buffered().len() < old(self).chunk_size,
        ensures
            final(self).wf(),
            final(self).chunk_size == old(self).chunk_size,
            !has_payload(r@) ==> final(self).buffered() == old(self).buffered() && state
                == BatchState::Partial,
            has_payload(r@) ==> final(self).buffered() == old(self).buffered().push(r@),
            state == BatchState::Full <==> (has_payload(r@) && old(self).buffered().len() + 1
                == old(self).chunk_size),
    {
        if r.has_payload() {
            self.buf.push(r);
            proof {
                assert(self.buffered() =~= old(self).buffered().push(r@));
            }
            if self.buf.len() as u64 == self.chunk_size {
                BatchState::Full
            } else {
                BatchState::Partial
            }
        } else {
            proof {
                assert(self.buffered() =~= old(self).buffered());
            }
            BatchState::Partial
        }
    }

    /// Atomically returns and clears the buffered batch; callable at any
    /// size, which supports the final flush of a partial batch on shutdown.
    pub fn drain(&mut self) -> (batch: Vec<Record>)
        requires
            old(self).wf(),
        ensures
            final(self).wf(),
            final(self).chunk_size == old(self).chunk_size,
            final(self).buffered() == Seq::<RecordView>::empty(),
            views_of(batch@) == old(self).buffered(),
            batch@.len() == old(self).buffered().len(),
            forall|k: int| 0 <= k < batch@.len() ==> has_payload(#[trigger] batch@[k]@),
    {
        let mut out: Vec<Record> = Vec::new();
        core::mem::swap(&mut out, &mut self.buf);
        proof {
            assert(self.buffered() =~= Seq::<RecordView>::empty());
        }
        out
    }
}

} // verus!
