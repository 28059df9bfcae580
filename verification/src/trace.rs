//! Execution traces of the archival loop, and the ordering laws that hold
//! of every one of them.
//!
//! A trace records the steps a loop made: each step's starting state, the
//! event it consumed, the state it reached, and the action it emitted. Every
//! run of [`crate::machine::Archiver::step`] satisfies
//! [`crate::machine::step_rel`], so the laws proved here hold of every
//! execution of the loop.

use vstd::prelude::*;

use crate::codec::chunk_encodable;
use crate::machine::{
    accepts, machine_init, step_rel, ActionView, EventView, MachineView, Outcome, Phase,
    UPLOAD_RETRY_LIMIT,
};
use crate::record::{has_payload, RecordView};

verus! {

/// One step of an execution: state before, event consumed, state after,
/// action emitted.
pub struct StepView {
    /// State the step started from.
    pub pre: MachineView,
    /// Event the step consumed.
    pub ev: EventView,
    /// State the step reached.
    pub post: MachineView,
    /// Action the step emitted.
    pub act: ActionView,
}

/// Whether `t` is a possible execution: every step follows the transition
/// relation, and consecutive steps chain.
pub open spec fn trace_consistent(t: Seq<StepView>) -> bool {
    &&& forall|i: int|
        0 <= i < t.len() ==> step_rel(#[trigger] t[i].pre, t[i].ev, t[i].post, t[i].act)
    &&& forall|i: int| 0 < i < t.len() ==> (#[trigger] t[i].pre) == t[i - 1].post
}

/// Whether `t` is a possible execution of a loop started fresh with the
/// given batch bound.
pub open spec fn trace_from_init(t: Seq<StepView>, chunk_size: u64) -> bool {
    &&& trace_consistent(t)
    &&& (t.len() > 0 ==> t[0].pre == machine_init(chunk_size))
}

/// Every step that ends with an upload in flight emitted that cycle's
/// upload itself: an in-flight cycle's artifact has been handed out.
pub proof fn lemma_inflight_upload_issued(t: Seq<StepView>, chunk_size: u64, i: int)
    requires
        trace_from_init(t, chunk_size),
        0 <= i < t.len(),
        t[i].post.phase is Flushing,
    ensures
        t[i].act == (ActionView::Upload { cycle: t[i].post.cycles_started }),
{
    assert(step_rel(t[i].pre, t[i].ev, t[i].post, t[i].act));
}

/// Commit-after-upload ordering law: a commit action for cycle `c` is
/// emitted only in the step that consumed that cycle's upload
/// acknowledgement, and a strictly earlier step emitted the upload of the
/// same cycle. No commit is observed before its paired upload.
pub proof fn lemma_commit_after_upload(t: Seq<StepView>, chunk_size: u64, i: int, c: u64)
    requires
        trace_from_init(t, chunk_size),
        0 <= i < t.len(),
        t[i].act == (ActionView::Commit { cycle: c }),
    ensures
        t[i].ev == EventView::UploadOk,
        t[i].pre.phase is Flushing,
        c == t[i].pre.cycles_started,
        exists|j: int| 0 <= j < i && t[j].act == (ActionView::Upload { cycle: c }),
{
    assert(step_rel(t[i].pre, t[i].ev, t[i].post, t[i].act));
    assert(t[i].pre.phase is Flushing);
    if i == 0 {
        assert(t[0].pre == machine_init(chunk_size));
        assert(false);
    }
    assert(t[i].pre == t[i - 1].post);
    lemma_inflight_upload_issued(t, chunk_size, i - 1);
    assert(t[i - 1].act == (ActionView::Upload { cycle: c }));
}

/// No state accepts any event once the loop has failed.
pub proof fn lemma_failed_is_terminal(s: MachineView, ev: EventView)
    requires
        s.phase is Failed,
    ensures
        !accepts(s, ev),
{
}

/// Fatal-on-commit-failure law: a commit failure moves the loop to the
/// terminal failed state and stops it with the commit fault; it is the last
/// step of the trace, so no further commit (or any other action) is ever
/// issued, and nothing touches the artifact that the paired upload already
/// made durable.
pub proof fn lemma_fatal_commit_failure(t: Seq<StepView>, chunk_size: u64, i: int)
    requires
        trace_from_init(t, chunk_size),
        0 <= i < t.len(),
        t[i].ev == EventView::CommitErr,
    ensures
        t[i].post.phase is Failed,
        t[i].act == ActionView::Stop(Outcome::CommitFailed),
        i == t.len() - 1,
{
    assert(step_rel(t[i].pre, t[i].ev, t[i].post, t[i].act));
    if i + 1 < t.len() {
        assert(step_rel(t[i + 1].pre, t[i + 1].ev, t[i + 1].post, t[i + 1].act));
        assert(t[i + 1].pre == t[i].post);
        lemma_failed_is_terminal(t[i + 1].pre, t[i + 1].ev);
        assert(false);
    }
}

} // verus!

verus! {

/// Seven-record scenario law, for a batch bound of three: records one to
/// seven arrive in order, the fourth carrying no payload, and both flushed
/// batches are encodable. Then every run of the loop makes exactly two
/// uploads and two commits, interleaved upload, commit, upload, commit: the
/// third record triggers the first cycle, whose batch is exactly records
/// one to three; the fourth record is skipped and not counted; the seventh
/// record triggers the second cycle, whose batch is exactly records five to
/// seven; and the loop keeps consuming.
pub proof fn lemma_seven_records_two_cycles(
    t: Seq<StepView>,
    r1: RecordView,
    r2: RecordView,
    r3: RecordView,
    r4: RecordView,
    r5: RecordView,
    r6: RecordView,
    r7: RecordView,
)
    requires
        trace_from_init(t, 3),
        t.len() == 11,
        t[0].ev == EventView::Record(r1),
        t[1].ev == EventView::Record(r2),
        t[2].ev == EventView::Record(r3),
        t[3].ev == EventView::UploadOk,
        t[4].ev == EventView::CommitOk,
        t[5].ev == EventView::Record(r4),
        t[6].ev == EventView::Record(r5),
        t[7].ev == EventView::Record(r6),
        t[8].ev == EventView::Record(r7),
        t[9].ev == EventView::UploadOk,
        t[10].ev == EventView::CommitOk,
        has_payload(r1) && has_payload(r2) && has_payload(r3),
        !has_payload(r4),
        has_payload(r5) && has_payload(r6) && has_payload(r7),
        chunk_encodable(seq![r1, r2, r3]),
        chunk_encodable(seq![r5, r6, r7]),
    ensures
        t[0].act == ActionView::AwaitNext,
        t[1].act == ActionView::AwaitNext,
        t[2].act == (ActionView::Upload { cycle: 1 }),
        t[2].post.pending == Some(seq![r1, r2, r3]),
        t[3].act == (ActionView::Commit { cycle: 1 }),
        t[4].act == ActionView::AwaitNext,
        t[5].act == ActionView::AwaitNext,
        t[6].act == ActionView::AwaitNext,
        t[7].act == ActionView::AwaitNext,
        t[8].act == (ActionView::Upload { cycle: 2 }),
        t[8].post.pending == Some(seq![r5, r6, r7]),
        t[9].act == (ActionView::Commit { cycle: 2 }),
        t[10].act == ActionView::AwaitNext,
        t[10].post.phase is Consuming,
        t[10].post.committed == 2,
{
    let s0 = machine_init(3);
    assert(t[0].pre == s0);
    assert(step_rel(t[0].pre, t[0].ev, t[0].post, t[0].act));
    let s1 = MachineView { buffered: s0.buffered.push(r1), ..s0 };
    assert(t[0].post == s1 && t[0].act == ActionView::AwaitNext);
    assert(t[1].pre == t[0].post);
    assert(step_rel(t[1].pre, t[1].ev, t[1].post, t[1].act));
    let s2 = MachineView { buffered: s1.buffered.push(r2), ..s1 };
    assert(t[1].post == s2 && t[1].act == ActionView::AwaitNext);
    assert(t[2].pre == t[1].post);
    assert(step_rel(t[2].pre, t[2].ev, t[2].post, t[2].act));
    let b1 = s2.buffered.push(r3);
    assert(b1 =~= seq![r1, r2, r3]);
    assert(chunk_encodable(b1));
    let s3 = MachineView {
        phase: Phase::Flushing,
        draining: false,
        buffered: Seq::empty(),
        pending: Some(b1),
        attempts_left: UPLOAD_RETRY_LIMIT,
        cycles_started: 1u64,
        ..s2
    };
    assert(t[2].post == s3 && t[2].act == (ActionView::Upload { cycle: 1 }));
    assert(t[3].pre == t[2].post);
    assert(step_rel(t[3].pre, t[3].ev, t[3].post, t[3].act));
    let s4 = MachineView { phase: Phase::Committing, ..s3 };
    assert(t[3].post == s4 && t[3].act == (ActionView::Commit { cycle: 1 }));
    assert(t[4].pre == t[3].post);
    assert(step_rel(t[4].pre, t[4].ev, t[4].post, t[4].act));
    let s5 = MachineView { phase: Phase::Consuming, pending: None, committed: 1u64, ..s4 };
    assert(t[4].post == s5 && t[4].act == ActionView::AwaitNext);
    assert(t[5].pre == t[4].post);
    assert(step_rel(t[5].pre, t[5].ev, t[5].post, t[5].act));
    assert(t[5].post == s5 && t[5].act == ActionView::AwaitNext);
    assert(t[6].pre == t[5].post);
    assert(step_rel(t[6].pre, t[6].ev, t[6].post, t[6].act));
    let s7 = MachineView { buffered: s5.buffered.push(r5), ..s5 };
    assert(s5.buffered.len() == 0);
    assert(t[6].post == s7 && t[6].act == ActionView::AwaitNext);
    assert(t[7].pre == t[6].post);
    assert(step_rel(t[7].pre, t[7].ev, t[7].post, t[7].act));
    let s8 = MachineView { buffered: s7.buffered.push(r6), ..s7 };
    assert(t[7].post == s8 && t[7].act == ActionView::AwaitNext);
    assert(t[8].pre == t[7].post);
    assert(step_rel(t[8].pre, t[8].ev, t[8].post, t[8].act));
    let b2 = s8.buffered.push(r7);
    assert(b2 =~= seq![r5, r6, r7]);
    assert(chunk_encodable(b2));
    let s9 = MachineView {
        phase: Phase::Flushing,
        draining: false,
        buffered: Seq::empty(),
        pending: Some(b2),
        attempts_left: UPLOAD_RETRY_LIMIT,
        cycles_started: 2u64,
        ..s8
    };
    assert(t[8].post == s9 && t[8].act == (ActionView::Upload { cycle: 2 }));
    assert(t[9].pre == t[8].post);
    assert(step_rel(t[9].pre, t[9].ev, t[9].post, t[9].act));
    let s10 = MachineView { phase: Phase::Committing, ..s9 };
    assert(t[9].post == s10 && t[9].act == (ActionView::Commit { cycle: 2 }));
    assert(t[10].pre == t[9].post);
    assert(step_rel(t[10].pre, t[10].ev, t[10].post, t[10].act));
    let s11 = MachineView { phase: Phase::Consuming, pending: None, committed: 2u64, ..s10 };
    assert(t[10].post == s11 && t[10].act == ActionView::AwaitNext);
}

/// Shutdown scenario law, for a batch bound of three: two records have
/// accumulated when the shutdown signal arrives. Then every run of the loop
/// makes one final partial flush of exactly those two records, commits it,
/// and only then terminates cleanly.
pub proof fn lemma_shutdown_partial_flush(
    t: Seq<StepView>,
    r1: RecordView,
    r2: RecordView,
)
    requires
        trace_from_init(t, 3),
        t.len() == 5,
        t[0].ev == EventView::Record(r1),
        t[1].ev == EventView::Record(r2),
        t[2].ev == EventView::Shutdown,
        t[3].ev == EventView::UploadOk,
        t[4].ev == EventView::CommitOk,
        has_payload(r1) && has_payload(r2),
        chunk_encodable(seq![r1, r2]),
    ensures
        t[0].act == ActionView::AwaitNext,
        t[1].act == ActionView::AwaitNext,
        t[2].act == (ActionView::Upload { cycle: 1 }),
        t[2].post.pending == Some(seq![r1, r2]),
        t[3].act == (ActionView::Commit { cycle: 1 }),
        t[4].act == ActionView::Stop(Outcome::Success),
        t[4].post.phase is Done,
        t[4].post.committed == 1,
{
    let s0 = machine_init(3);
    assert(t[0].pre == s0);
    assert(step_rel(t[0].pre, t[0].ev, t[0].post, t[0].act));
    let s1 = MachineView { buffered: s0.buffered.push(r1), ..s0 };
    assert(t[0].post == s1 && t[0].act == ActionView::AwaitNext);
    assert(t[1].pre == t[0].post);
    assert(step_rel(t[1].pre, t[1].ev, t[1].post, t[1].act));
    let s2 = MachineView { buffered: s1.buffered.push(r2), ..s1 };
    assert(t[1].post == s2 && t[1].act == ActionView::AwaitNext);
    assert(t[2].pre == t[1].post);
    assert(step_rel(t[2].pre, t[2].ev, t[2].post, t[2].act));
    let b = s2.buffered;
    assert(b =~= seq![r1, r2]);
    assert(chunk_encodable(b));
    let s3 = MachineView {
        phase: Phase::Flushing,
        draining: true,
        buffered: Seq::empty(),
        pending: Some(b),
        attempts_left: UPLOAD_RETRY_LIMIT,
        cycles_started: 1u64,
        ..s2
    };
    assert(t[2].post == s3 && t[2].act == (ActionView::Upload { cycle: 1 }));
    assert(t[3].pre == t[2].post);
    assert(step_rel(t[3].pre, t[3].ev, t[3].post, t[3].act));
    let s4 = MachineView { phase: Phase::Committing, ..s3 };
    assert(t[3].post == s4 && t[3].act == (ActionView::Commit { cycle: 1 }));
    assert(t[4].pre == t[3].post);
    assert(step_rel(t[4].pre, t[4].ev, t[4].post, t[4].act));
    let s5 = MachineView { phase: Phase::Done, pending: None, committed: 1u64, ..s4 };
    assert(t[4].post == s5 && t[4].act == ActionView::Stop(Outcome::Success));
}

} // verus!
