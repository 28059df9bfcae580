//! The archival loop as a state machine.
//!
//! The loop's decisions are a function from the current state and one event
//! (a consumed record, an upload or commit acknowledgement, a shutdown
//! signal) to the next state and one action for the surrounding runtime (wait
//! for the next record, upload an artifact, commit the consumer offset,
//! stop). The runtime performs the action and hands back the outcome as the
//! next event, so at most one upload-and-commit cycle is in flight at a time.
//!
//! The ordering guarantee of the pipeline lives here: a commit action is
//! only ever issued in the step that receives the upload acknowledgement of
//! the same cycle, and a commit failure is terminal.

use vstd::prelude::*;

use crate::accumulator::{Accumulator, BatchState};
use crate::codec::{chunk_encodable, spec_encode_chunk};
use crate::compress::{deflate_inverse, deflate_of, seal_chunk};
use crate::keys::{archive_key, now_rfc3339};
use crate::record::{has_payload, views_of, Record, RecordView};

verus! {

/// How many times a failed upload of one artifact is retried before the
/// loop gives up on the batch and stops.
pub const UPLOAD_RETRY_LIMIT: u32 = 3;

/// Where the loop stands between steps.
#[derive(Clone, Copy, Debug, PartialEq, Eq, Structural)]
pub enum Phase {
    /// Waiting for the next record from the broker.
    Consuming,
    /// An artifact has been handed out for upload; waiting for its
    /// acknowledgement.
    Flushing,
    /// The upload is durable; the offset commit has been issued.
    Committing,
    /// Terminated cleanly after draining.
    Done,
    /// Terminated on a fault.
    Failed,
}

/// Why the loop stopped; distinguishes success, transient faults that
/// exhausted their retries, structural faults, and the always-fatal commit
/// fault, for operational alerting.
#[derive(Clone, Copy, Debug, PartialEq, Eq, Structural)]
pub enum Outcome {
    /// Drained and stopped cleanly.
    Success,
    /// An upload kept failing until the retry budget was spent.
    UploadRetriesExhausted,
    /// A drained batch could not be encoded; structural, not transient.
    EncodingFailed,
    /// The broker refused or failed an offset commit; always fatal, because
    /// continuing would hide a stale checkpoint behind apparent progress.
    CommitFailed,
}

/// One event handed to the loop by the surrounding runtime.
pub enum Event {
    /// The broker delivered a record.
    Record(Record),
    /// The broker's stream ended.
    StreamEnded,
    /// An external shutdown was requested.
    Shutdown,
    /// The object store acknowledged the upload as durable.
    UploadOk,
    /// The upload failed.
    UploadErr,
    /// The broker acknowledged the offset commit.
    CommitOk,
    /// The offset commit failed.
    CommitErr,
}

/// The model of an [`Event`].
pub enum EventView {
    /// The broker delivered a record.
    Record(RecordView),
    /// The broker's stream ended.
    StreamEnded,
    /// An external shutdown was requested.
    Shutdown,
    /// The object store acknowledged the upload as durable.
    UploadOk,
    /// The upload failed.
    UploadErr,
    /// The broker acknowledged the offset commit.
    CommitOk,
    /// The offset commit failed.
    CommitErr,
}

impl View for Event {
    type V = EventView;

    open spec fn view(&self) -> EventView {
        match self {
            Event::Record(r) => EventView::Record(r@),
            Event::StreamEnded => EventView::StreamEnded,
            Event::Shutdown => EventView::Shutdown,
            Event::UploadOk => EventView::UploadOk,
            Event::UploadErr => EventView::UploadErr,
            Event::CommitOk => EventView::CommitOk,
            Event::CommitErr => EventView::CommitErr,
        }
    }
}

/// One action the loop asks of the surrounding runtime.
pub enum Action {
    /// Wait for the next record or signal.
    AwaitNext,
    /// Upload `body` under `key`; the cycle number pairs the upload with its
    /// later commit.
    Upload {
        /// Flush cycle this upload belongs to, starting at one.
        cycle: u64,
        /// Object key to store the artifact under.
        key: String,
        /// The compressed artifact.
        body: Vec<u8>,
    },
    /// Commit the consumer group's offset; issued only after the upload of
    /// the same cycle was acknowledged.
    Commit {
        /// Flush cycle whose records the commit covers.
        cycle: u64,
    },
    /// Stop the loop with the given outcome.
    Stop(Outcome),
}

/// The model of an [`Action`]: the artifact bytes are described by the
/// contracts, not by the model.
pub enum ActionView {
    /// Wait for the next record or signal.
    AwaitNext,
    /// Upload the pending artifact of the given cycle.
    Upload {
        /// Flush cycle this upload belongs to.
        cycle: u64,
    },
    /// Commit the consumer group's offset for the given cycle.
    Commit {
        /// Flush cycle whose records the commit covers.
        cycle: u64,
    },
    /// Stop the loop with the given outcome.
    Stop(Outcome),
}

impl View for Action {
    type V = ActionView;

    open spec fn view(&self) -> ActionView {
        match self {
            Action::AwaitNext => ActionView::AwaitNext,
            Action::Upload { cycle, key, body } => ActionView::Upload { cycle: *cycle },
            Action::Commit { cycle } => ActionView::Commit { cycle: *cycle },
            Action::Stop(o) => ActionView::Stop(*o),
        }
    }
}

/// The model of the loop's state.
pub struct MachineView {
    /// Where the loop stands.
    pub phase: Phase,
    /// Whether a drain (shutdown or stream end) has been requested.
    pub draining: bool,
    /// Configured records per batch.
    pub chunk_size: u64,
    /// Records buffered towards the next batch.
    pub buffered: Seq<RecordView>,
    /// The batch of the in-flight upload-and-commit cycle, if one is.
    pub pending: Option<Seq<RecordView>>,
    /// Upload retries left for the in-flight artifact.
    pub attempts_left: u32,
    /// Flush cycles started so far; also the number of the current cycle.
    pub cycles_started: u64,
    /// Commits acknowledged so far.
    pub committed: u64,
}

/// The state of a fresh loop.
pub open spec fn machine_init(chunk_size: u64) -> MachineView {
    MachineView {
        phase: Phase::Consuming,
        draining: false,
        chunk_size,
        buffered: Seq::empty(),
        pending: None,
        attempts_left: UPLOAD_RETRY_LIMIT,
        cycles_started: 0,
        committed: 0,
    }
}

/// Which events a state accepts: record, stream-end and shutdown events
/// arrive only while consuming; upload acknowledgements only while an upload
/// is in flight; commit acknowledgements only after a commit was issued.
/// Terminal states accept nothing.
pub open spec fn accepts(s: MachineView, ev: EventView) -> bool {
    match ev {
        EventView::Record(_) => s.phase is Consuming,
        EventView::StreamEnded => s.phase is Consuming,
        EventView::Shutdown => s.phase is Consuming,
        EventView::UploadOk => s.phase is Flushing,
        EventView::UploadErr => s.phase is Flushing,
        EventView::CommitOk => s.phase is Committing,
        EventView::CommitErr => s.phase is Committing,
    }
}

/// The transition made when a batch is flushed: the buffer is drained into
/// the batch, and either the batch is encodable, so the sealed artifact
/// goes out for upload and a new cycle starts, or it is not, which is the
/// structural encoding fault and stops the loop.
pub open spec fn flush_steps(
    pre: MachineView,
    batch: Seq<RecordView>,
    draining: bool,
    post: MachineView,
    act: ActionView,
) -> bool {
    if !chunk_encodable(batch) {
        &&& post == (MachineView {
            phase: Phase::Failed,
            draining,
            buffered: Seq::empty(),
            pending: None,
            ..pre
        })
        &&& act == ActionView::Stop(Outcome::EncodingFailed)
    } else {
        &&& post == (MachineView {
            phase: Phase::Flushing,
            draining,
            buffered: Seq::empty(),
            pending: Some(batch),
            attempts_left: UPLOAD_RETRY_LIMIT,
            cycles_started: (pre.cycles_started + 1) as u64,
            ..pre
        })
        &&& act == (ActionView::Upload { cycle: (pre.cycles_started + 1) as u64 })
    }
}

/// The loop's transition relation: what one step does on each accepted
/// event; the next state and the action are a function of the state and the
/// event.
pub open spec fn step_rel(
    pre: MachineView,
    ev: EventView,
    post: MachineView,
    act: ActionView,
) -> bool {
    &&& accepts(pre, ev)
    &&& match ev {
        EventView::Record(r) => {
            if !has_payload(r) {
                post == pre && act == ActionView::AwaitNext
            } else if pre.buffered.len() + 1 < pre.chunk_size {
                post == (MachineView { buffered: pre.buffered.push(r), ..pre }) && act
                    == ActionView::AwaitNext
            } else {
                flush_steps(pre, pre.buffered.push(r), false, post, act)
            }
        },
        EventView::StreamEnded | EventView::Shutdown => {
            if pre.buffered.len() == 0 {
                post == (MachineView { phase: Phase::Done, draining: true, ..pre }) && act
                    == ActionView::Stop(Outcome::Success)
            } else {
                flush_steps(pre, pre.buffered, true, post, act)
            }
        },
        EventView::UploadOk => {
            &&& post == (MachineView { phase: Phase::Committing, ..pre })
            &&& act == (ActionView::Commit { cycle: pre.cycles_started })
        },
        EventView::UploadErr => {
            if pre.attempts_left == 0 {
                &&& post == (MachineView { phase: Phase::Failed, pending: None, ..pre })
                &&& act == ActionView::Stop(Outcome::UploadRetriesExhausted)
            } else {
                &&& post == (MachineView {
                    attempts_left: (pre.attempts_left - 1) as u32,
                    ..pre
                })
                &&& act == (ActionView::Upload { cycle: pre.cycles_started })
            }
        },
        EventView::CommitOk => {
            &&& post == (MachineView {
                phase: if pre.draining {
                    Phase::Done
                } else {
                    Phase::Consuming
                },
                pending: None,
                committed: (pre.committed + 1) as u64,
                ..pre
            })
            &&& act == (if pre.draining {
                ActionView::Stop(Outcome::Success)
            } else {
                ActionView::AwaitNext
            })
        },
        EventView::CommitErr => {
            &&& post == (MachineView { phase: Phase::Failed, pending: None, ..pre })
            &&& act == ActionView::Stop(Outcome::CommitFailed)
        },
    }
}

/// The archival loop's state: the accumulator, the phase, and the in-flight
/// artifact of the current cycle.
pub struct Archiver {
    /// The source whose topic is archived; names the object keys.
    pub sensor_name: String,
    /// The batch buffer.
    pub acc: Accumulator,
    /// Where the loop stands.
    pub phase: Phase,
    /// Whether a drain has been requested.
    pub draining: bool,
    /// Upload retries left for the in-flight artifact.
    pub attempts_left: u32,
    /// Flush cycles started so far.
    pub cycles_started: u64,
    /// Commits acknowledged so far.
    pub committed: u64,
    /// Object key of the in-flight artifact.
    pub pending_key: Option<String>,
    /// The in-flight artifact, kept for retries.
    pub pending_body: Option<Vec<u8>>,
    /// The records of the in-flight batch.
    pub pending_batch: Ghost<Option<Seq<RecordView>>>,
}

impl View for Archiver {
    type V = MachineView;

    open spec fn view(&self) -> MachineView {
        MachineView {
            phase: self.phase,
            draining: self.draining,
            chunk_size: self.acc.chunk_size,
            buffered: self.acc.buffered(),
            pending: self.pending_batch@,
            attempts_left: self.attempts_left,
            cycles_started: self.cycles_started,
            committed: self.committed,
        }
    }
}

impl Archiver {
    /// Well-formedness, maintained by every step: the buffer respects its
    /// bound; while a cycle is in flight, its batch is a nonempty encodable
    /// batch of at most `chunk_size` records, and while its upload is
    /// pending, the stored artifact decompresses to exactly that batch's
    /// encoding and its key names this source.
    pub open spec fn wf(&self) -> bool {
        &&& self.acc.wf()
        &&& self.committed <= self.cycles_started
        &&& (self.phase is Consuming ==> !self.draining && self.acc.buffered().len()
            < self.acc.chunk_size && self.pending_batch@ is None && self.pending_body is None
            && self.pending_key is None)
        &&& ((self.phase is Flushing || self.phase is Committing) ==> self.acc.buffered().len()
            == 0 && self.committed < self.cycles_started)
        &&& ((self.phase is Flushing || self.phase is Committing) ==> (self.pending_batch@ matches
            Some(b) && 0 < b.len() <= self.acc.chunk_size && chunk_encodable(b)))
        &&& (self.phase is Flushing ==> (self.pending_batch@ matches Some(b)
            && self.pending_body matches Some(body) && body@ == deflate_of(spec_encode_chunk(b))
            && deflate_inverse(body@) == Some(spec_encode_chunk(b)) && (self.pending_key matches
            Some(k) && (exists|ts: Seq<char>| ts.len() > 0 && k@ == self.sensor_name@ + "/"@
            + ts))))
    }

    /// A fresh loop for one source, with an empty buffer.
    pub fn new(sensor_name: String, chunk_size: u64) -> (m: Archiver)
        requires
            chunk_size > 0,
        ensures
            m.wf(),
            m@ == machine_init(chunk_size),
            m.sensor_name@ == sensor_name@,
    {
        let m = Archiver {
            sensor_name,
            acc: Accumulator::new(chunk_size),
            phase: Phase::Consuming,
            draining: false,
            attempts_left: UPLOAD_RETRY_LIMIT,
            cycles_started: 0,
            committed: 0,
            pending_key: None,
            pending_body: None,
            pending_batch: Ghost(None),
        };
        proof {
            assert(m@ == machine_init(chunk_size));
        }
        m
    }

    /// Where the loop stands.
    pub fn phase(&self) -> (p: Phase)
        ensures
            p == self@.phase,
    {
        self.phase
    }

    /// Commits acknowledged so far.
    pub fn committed(&self) -> (n: u64)
        ensures
            n == self@.committed,
    {
        self.committed
    }

    /// The source this loop archives.
    pub fn sensor(&self) -> (s: &str)
        ensures
            s@ == self.sensor_name@,
    {
        self.sensor_name.as_str()
    }

    /// Drains the buffer and seals the batch; on success the new cycle's
    /// artifact goes out for upload, otherwise the loop stops on the fault.
    fn flush(&mut self, draining: bool) -> (act: Action)
        requires
            old(self).acc.wf(),
            old(self).phase is Consuming,
            old(self).pending_batch@ is None,
            old(self).pending_body is None,
            old(self).pending_key is None,
            0 < old(self).acc.buffered().len() <= old(self).acc.chunk_size,
            old(self).cycles_started < u64::MAX,
            old(self).committed <= old(self).cycles_started,
        ensures
            final(self).wf(),
            final(self).sensor_name == old(self).sensor_name,
            flush_steps(old(self)@, old(self).acc.buffered(), draining, final(self)@, act@),
            act matches Action::Upload { cycle, key, body } ==> (final(self)@.pending matches Some(
                b,
            ) && body@ == deflate_of(spec_encode_chunk(b)) && deflate_inverse(body@) == Some(
                spec_encode_chunk(b),
            ) && (exists|ts: Seq<char>| ts.len() > 0 && key@ == old(self).sensor_name@ + "/"@
                + ts)),
    {
        let ghost pre = self@;
        let batch = self.acc.drain();
        let ghost bviews = views_of(batch@);
        self.draining = draining;
        match seal_chunk(&batch) {
            Ok(c) => {
                let ts = now_rfc3339();
                let key = archive_key(self.sensor_name.as_str(), ts.as_str());
                let body_copy = copy_bytes(&c);
                self.pending_body = Some(body_copy);
                self.pending_key = Some(key.clone());
                self.pending_batch = Ghost(Some(bviews));
                self.cycles_started = self.cycles_started + 1;
                self.attempts_left = UPLOAD_RETRY_LIMIT;
                self.phase = Phase::Flushing;
                proof {
                    assert(exists|t: Seq<char>|
                        t.len() > 0 && key@ == self.sensor_name@ + "/"@ + t) by {
                        assert(ts@.len() > 0 && key@ == self.sensor_name@ + "/"@ + ts@);
                    }
                    assert(self@ == (MachineView {
                        phase: Phase::Flushing,
                        draining,
                        buffered: Seq::empty(),
                        pending: Some(bviews),
                        attempts_left: UPLOAD_RETRY_LIMIT,
                        cycles_started: (pre.cycles_started + 1) as u64,
                        ..pre
                    }));
                }
                Action::Upload { cycle: self.cycles_started, key, body: c }
            },
            Err(_) => {
                self.phase = Phase::Failed;
                proof {
                    assert(self@ == (MachineView {
                        phase: Phase::Failed,
                        draining,
                        buffered: Seq::empty(),
                        pending: None,
                        ..pre
                    }));
                }
                Action::Stop(Outcome::EncodingFailed)
            },
        }
    }

    /// One step of the loop: takes the next event, updates the state, and
    /// returns the action for the runtime. The transition taken is exactly
    /// [`step_rel`]; an emitted upload additionally carries an artifact that
    /// decompresses to the encoding of the pending batch, under a key naming
    /// this source and a timestamp.
    pub fn step(&mut self, ev: Event) -> (act: Action)
        requires
            old(self).wf(),
            accepts(old(self)@, ev@),
            old(self).cycles_started < u64::MAX,
        ensures
            final(self).wf(),
            final(self).sensor_name == old(self).sensor_name,
            step_rel(old(self)@, ev@, final(self)@, act@),
            act matches Action::Upload { cycle, key, body } ==> (final(self)@.pending matches Some(
                b,
            ) && body@ == deflate_of(spec_encode_chunk(b)) && deflate_inverse(body@) == Some(
                spec_encode_chunk(b),
            ) && (exists|ts: Seq<char>| ts.len() > 0 && key@ == old(self).sensor_name@ + "/"@
                + ts)),
    {
        match ev {
            Event::Record(r) => {
                let state = self.acc.append(r);
                match state {
                    BatchState::Partial => Action::AwaitNext,
                    BatchState::Full => self.flush(false),
                }
            },
            Event::StreamEnded | Event::Shutdown => {
                if self.acc.is_empty() {
                    self.draining = true;
                    self.phase = Phase::Done;
                    Action::Stop(Outcome::Success)
                } else {
                    self.flush(true)
                }
            },
            Event::UploadOk => {
                self.phase = Phase::Committing;
                Action::Commit { cycle: self.cycles_started }
            },
            Event::UploadErr => {
                if self.attempts_left == 0 {
                    self.phase = Phase::Failed;
                    self.pending_batch = Ghost(None);
                    self.pending_body = None;
                    self.pending_key = None;
                    Action::Stop(Outcome::UploadRetriesExhausted)
                } else {
                    self.attempts_left = self.attempts_left - 1;
                    match (&self.pending_key, &self.pending_body) {
                        (Some(k), Some(b)) => {
                            let key = k.clone();
                            let body = copy_bytes(b);
                            Action::Upload { cycle: self.cycles_started, key, body }
                        },
                        _ => {
                            proof {
                                assert(false);
                            }
                            vstd::pervasive::unreached()
                        },
                    }
                }
            },
            Event::CommitOk => {
                self.pending_batch = Ghost(None);
                self.pending_body = None;
                self.pending_key = None;
                self.committed = self.committed + 1;
                if self.draining {
                    self.phase = Phase::Done;
                    Action::Stop(Outcome::Success)
                } else {
                    self.phase = Phase::Consuming;
                    Action::AwaitNext
                }
            },
            Event::CommitErr => {
                self.phase = Phase::Failed;
                self.pending_batch = Ghost(None);
                self.pending_body = None;
                self.pending_key = None;
                Action::Stop(Outcome::CommitFailed)
            },
        }
    }
}

/// A fresh copy of the given bytes.
fn copy_bytes(src: &Vec<u8>) -> (out: Vec<u8>)
    ensures
        out@ == src@,
{
    let n = src.len();
    let mut out: Vec<u8> = Vec::new();
    let mut i: usize = 0;
    while i < n
        invariant
            i <= n,
            n == src@.len(),
            out@ == src@.take(i as int),
        decreases n - i,
    {
        out.push(src[i]);
        proof {
            assert(out@ =~= src@.take(i + 1));
        }
        i = i + 1;
    }
    proof {
        assert(src@.take(n as int) =~= src@);
    }
    out
}

} // verus!
