use opensensor::accumulator::{Accumulator, BatchState};
use opensensor::codec::MAX_CHUNK_BYTES;
use opensensor::compress::restore_chunk;
use opensensor::machine::{Action, Archiver, Event, Outcome, Phase};
use opensensor::record::Record;

fn rec(offset: u64, payload: Option<Vec<u8>>) -> Record {
    Record { partition: 0, offset, timestamp_ns: 1_700_000_000_000_000_000 + offset, payload }
}

fn expect_upload(act: Action) -> (u64, String, Vec<u8>) {
    match act {
        Action::Upload { cycle, key, body } => (cycle, key, body),
        _ => panic!("expected an upload action"),
    }
}

#[test]
fn scenario_seven_records_two_flushes() {
    // chunk_size = 3; R1..R7 where R4 has an absent payload: flush one holds
    // R1..R3, R4 is skipped, flush two holds R5..R7 and triggers at R7; two
    // uploads and two commits, in that order.
    let mut m = Archiver::new(String::from("radar-2d"), 3);
    assert!(matches!(m.step(Event::Record(rec(1, Some(vec![11])))), Action::AwaitNext));
    assert!(matches!(m.step(Event::Record(rec(2, Some(vec![12])))), Action::AwaitNext));
    let (cycle1, key1, body1) = expect_upload(m.step(Event::Record(rec(3, Some(vec![13])))));
    assert_eq!(cycle1, 1);
    assert!(key1.starts_with("radar-2d/"));
    assert!(matches!(m.step(Event::UploadOk), Action::Commit { cycle: 1 }));
    assert!(matches!(m.step(Event::CommitOk), Action::AwaitNext));

    // The record without a payload is skipped and does not count.
    assert!(matches!(m.step(Event::Record(rec(4, None))), Action::AwaitNext));

    assert!(matches!(m.step(Event::Record(rec(5, Some(vec![15])))), Action::AwaitNext));
    assert!(matches!(m.step(Event::Record(rec(6, Some(vec![16])))), Action::AwaitNext));
    let (cycle2, _key2, body2) = expect_upload(m.step(Event::Record(rec(7, Some(vec![17])))));
    assert_eq!(cycle2, 2);
    assert!(matches!(m.step(Event::UploadOk), Action::Commit { cycle: 2 }));
    assert!(matches!(m.step(Event::CommitOk), Action::AwaitNext));
    assert_eq!(m.committed(), 2);
    assert_eq!(m.phase(), Phase::Consuming);

    // The first artifact holds exactly R1..R3, the second exactly R5..R7.
    let flush1 = restore_chunk(&body1, MAX_CHUNK_BYTES).unwrap();
    let offsets1: Vec<u64> = flush1.iter().map(|r| r.offset).collect();
    assert_eq!(offsets1, vec![1, 2, 3]);
    assert_eq!(flush1[0].payload, Some(vec![11]));
    let flush2 = restore_chunk(&body2, MAX_CHUNK_BYTES).unwrap();
    let offsets2: Vec<u64> = flush2.iter().map(|r| r.offset).collect();
    assert_eq!(offsets2, vec![5, 6, 7]);
}

#[test]
fn scenario_shutdown_flushes_partial_batch() {
    // Shutdown arrives with two of three records accumulated: a final
    // partial flush of the two records goes out, is committed, and only then
    // does the loop stop.
    let mut m = Archiver::new(String::from("radar-2d"), 3);
    assert!(matches!(m.step(Event::Record(rec(1, Some(vec![1])))), Action::AwaitNext));
    assert!(matches!(m.step(Event::Record(rec(2, Some(vec![2])))), Action::AwaitNext));
    let (cycle, _key, body) = expect_upload(m.step(Event::Shutdown));
    assert_eq!(cycle, 1);
    assert!(matches!(m.step(Event::UploadOk), Action::Commit { cycle: 1 }));
    assert!(matches!(m.step(Event::CommitOk), Action::Stop(Outcome::Success)));
    assert_eq!(m.phase(), Phase::Done);
    assert_eq!(m.committed(), 1);

    let batch = restore_chunk(&body, MAX_CHUNK_BYTES).unwrap();
    assert_eq!(batch.len(), 2);
    assert_eq!(batch[0].offset, 1);
    assert_eq!(batch[1].offset, 2);
}

#[test]
fn shutdown_with_empty_buffer_stops_cleanly() {
    let mut m = Archiver::new(String::from("radar-2d"), 3);
    assert!(matches!(m.step(Event::Shutdown), Action::Stop(Outcome::Success)));
    assert_eq!(m.phase(), Phase::Done);
    assert_eq!(m.committed(), 0);
}

#[test]
fn stream_end_flushes_like_shutdown() {
    let mut m = Archiver::new(String::from("radar-2d"), 4);
    assert!(matches!(m.step(Event::Record(rec(9, Some(vec![9])))), Action::AwaitNext));
    let (cycle, _key, _body) = expect_upload(m.step(Event::StreamEnded));
    assert_eq!(cycle, 1);
    assert!(matches!(m.step(Event::UploadOk), Action::Commit { cycle: 1 }));
    assert!(matches!(m.step(Event::CommitOk), Action::Stop(Outcome::Success)));
    assert_eq!(m.phase(), Phase::Done);
}

#[test]
fn commit_failure_is_fatal() {
    // An upload success followed by a commit failure: the loop reaches the
    // terminal failed state, reports the commit fault, and issues nothing
    // further; the uploaded artifact itself is untouched.
    let mut m = Archiver::new(String::from("radar-2d"), 1);
    let (cycle, _key, body) = expect_upload(m.step(Event::Record(rec(1, Some(vec![7])))));
    assert_eq!(cycle, 1);
    assert!(matches!(m.step(Event::UploadOk), Action::Commit { cycle: 1 }));
    assert!(matches!(m.step(Event::CommitErr), Action::Stop(Outcome::CommitFailed)));
    assert_eq!(m.phase(), Phase::Failed);
    assert_eq!(m.committed(), 0);

    // The artifact that was uploaded still restores to the batch.
    let batch = restore_chunk(&body, MAX_CHUNK_BYTES).unwrap();
    assert_eq!(batch.len(), 1);
    assert_eq!(batch[0].payload, Some(vec![7]));
}

#[test]
fn upload_failures_retry_then_exhaust() {
    // A failed upload is retried with the same artifact up to the retry
    // budget, then the loop stops on the transient-exhausted fault.
    let mut m = Archiver::new(String::from("radar-2d"), 1);
    let (_cycle, key0, body0) = expect_upload(m.step(Event::Record(rec(1, Some(vec![5])))));
    let mut retries = 0u32;
    loop {
        match m.step(Event::UploadErr) {
            Action::Upload { cycle, key, body } => {
                retries += 1;
                assert_eq!(cycle, 1);
                assert_eq!(key, key0);
                assert_eq!(body, body0);
            }
            Action::Stop(Outcome::UploadRetriesExhausted) => break,
            _ => panic!("unexpected action after an upload failure"),
        }
    }
    assert_eq!(retries, opensensor::machine::UPLOAD_RETRY_LIMIT);
    assert_eq!(m.phase(), Phase::Failed);
}

#[test]
fn retried_upload_can_still_commit() {
    let mut m = Archiver::new(String::from("radar-2d"), 1);
    let _ = expect_upload(m.step(Event::Record(rec(1, Some(vec![5])))));
    let (cycle, _key, _body) = expect_upload(m.step(Event::UploadErr));
    assert_eq!(cycle, 1);
    assert!(matches!(m.step(Event::UploadOk), Action::Commit { cycle: 1 }));
    assert!(matches!(m.step(Event::CommitOk), Action::AwaitNext));
    assert_eq!(m.committed(), 1);
}

#[test]
fn batch_boundary_full_only_on_last() {
    // Appending exactly chunk_size records to an empty accumulator yields
    // Full on the last append and never before.
    let mut acc = Accumulator::new(3);
    assert_eq!(acc.append(rec(1, Some(vec![1]))), BatchState::Partial);
    assert_eq!(acc.append(rec(2, Some(vec![2]))), BatchState::Partial);
    assert_eq!(acc.append(rec(3, Some(vec![3]))), BatchState::Full);
    let batch = acc.drain();
    assert_eq!(batch.len(), 3);
    assert!(acc.is_empty());
}

#[test]
fn empty_payload_contributes_nothing() {
    // A record with an absent payload adds no entry and leaves the
    // Full/Partial answer unchanged; an empty payload counts as absent.
    let mut acc = Accumulator::new(2);
    assert_eq!(acc.append(rec(1, Some(vec![1]))), BatchState::Partial);
    assert_eq!(acc.append(rec(2, None)), BatchState::Partial);
    assert_eq!(acc.append(rec(3, Some(vec![]))), BatchState::Partial);
    assert_eq!(acc.len(), 1);
    assert_eq!(acc.append(rec(4, Some(vec![4]))), BatchState::Full);
    let batch = acc.drain();
    assert_eq!(batch.len(), 2);
    assert_eq!(batch[0].offset, 1);
    assert_eq!(batch[1].offset, 4);
}

#[test]
fn drain_of_partial_batch_is_allowed() {
    let mut acc = Accumulator::new(10);
    assert_eq!(acc.append(rec(1, Some(vec![1]))), BatchState::Partial);
    let batch = acc.drain();
    assert_eq!(batch.len(), 1);
    assert_eq!(acc.len(), 0);
}

#[test]
fn unencodable_batch_stops_the_loop() {
    // A record whose payload cannot be mapped into the per-record schema
    // aborts the flush as a structural fault and stops the loop.
    let mut m = Archiver::new(String::from("radar-2d"), 1);
    let huge = vec![0u8; opensensor::codec::MAX_PAYLOAD_BYTES as usize + 1];
    let act = m.step(Event::Record(rec(1, Some(huge))));
    assert!(matches!(act, Action::Stop(Outcome::EncodingFailed)));
    assert_eq!(m.phase(), Phase::Failed);
}
