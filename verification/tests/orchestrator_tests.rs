use s3_transfer::worker::ChunkOutcome;
use s3_transfer::{
    Action, ChunkError, Phase, PlanError, TransferError, TransferKind, TransferOrchestrator,
    TransferSpec,
};

fn cfg(total_size: u64, chunk_size: u64, max_chunks: u64, worker_budget: usize) -> TransferSpec {
    TransferSpec { total_size, chunk_size, max_chunks, worker_budget, max_retries: 5 }
}

fn success(index: u32, tag: &str, bytes: &[u8]) -> ChunkOutcome {
    ChunkOutcome::Success { index, part_tag: tag.to_string(), bytes: bytes.to_vec() }
}

#[test]
fn upload_25mb_with_two_workers_commits_three_sorted_parts() {
    // 25 MB object, 10 MB chunks, worker budget 2: 3 chunks of
    // 10 MB, 10 MB and 5 MB, part numbers 1, 2, 3, completion sees the
    // parts sorted, and the size check compares 25,000,000 bytes.
    let mut orch =
        TransferOrchestrator::new(cfg(25_000_000, 10_000_000, 10_000, 2), TransferKind::Upload);
    assert_eq!(orch.next_action(), Action::OpenSession);
    orch.on_session_opened(true);

    assert_eq!(orch.next_action(), Action::Dispatch { index: 0 });
    let c0 = orch.start_chunk();
    assert_eq!((c0.index, c0.offset, c0.length), (0, 0, 10_000_000));
    assert_eq!(orch.next_action(), Action::Dispatch { index: 1 });
    let c1 = orch.start_chunk();
    assert_eq!((c1.index, c1.offset, c1.length), (1, 10_000_000, 10_000_000));
    // Budget of 2 is spent: we must wait before dispatching chunk 2.
    assert_eq!(orch.next_action(), Action::AwaitCompletion);

    // Chunk 1 finishes before chunk 0.
    orch.on_chunk_done(success(1, "etag-b", b""));
    assert_eq!(orch.next_action(), Action::Dispatch { index: 2 });
    let c2 = orch.start_chunk();
    assert_eq!((c2.index, c2.offset, c2.length), (2, 20_000_000, 5_000_000));
    orch.on_chunk_done(success(2, "etag-c", b""));
    orch.on_chunk_done(success(0, "etag-a", b""));

    assert_eq!(orch.next_action(), Action::Commit);
    let parts = &orch.result.as_ref().unwrap().parts;
    let numbered: Vec<(u32, &str)> =
        parts.iter().map(|p| (p.part_number, p.part_tag.as_str())).collect();
    assert_eq!(numbered, vec![(1, "etag-a"), (2, "etag-b"), (3, "etag-c")]);

    orch.on_commit(true);
    assert_eq!(orch.next_action(), Action::VerifySize);
    assert_eq!(orch.cfg.total_size, 25_000_000);
    orch.on_size_report(25_000_000);
    assert_eq!(orch.phase, Phase::Completed);
    assert_eq!(orch.next_action(), Action::Done);
    assert!(orch.error.is_none());
}

#[test]
fn empty_object_fails_before_any_store_call() {
    let orch = TransferOrchestrator::new(cfg(0, 10_000_000, 10_000, 2), TransferKind::Upload);
    assert_eq!(orch.phase, Phase::Failed);
    assert_eq!(orch.error, Some(TransferError::Plan(PlanError::EmptyObject)));
    assert!(!orch.session_open);
    assert_eq!(orch.next_chunk, 0);
    assert_eq!(orch.next_action(), Action::Done);
}

#[test]
fn too_many_chunks_fails_without_opening_a_session() {
    // 12,000 chunks of 10 MB against a ceiling of 10,000.
    let orch =
        TransferOrchestrator::new(cfg(120_000_000_000, 10_000_000, 10_000, 2), TransferKind::Upload);
    assert_eq!(orch.phase, Phase::Failed);
    assert_eq!(orch.error, Some(TransferError::Plan(PlanError::TooManyChunks)));
    assert!(!orch.session_open);
    assert_eq!(orch.next_action(), Action::Done);
}

#[test]
fn download_reassembles_out_of_order_chunks() {
    let data: &[u8] = b"abcdefghijklmnopqrstuvwxy"; // 25 bytes
    let mut orch = TransferOrchestrator::new(cfg(25, 10, 10_000, 2), TransferKind::Download);
    assert_eq!(orch.phase, Phase::Running);

    let c0 = orch.start_chunk();
    let c1 = orch.start_chunk();
    assert_eq!(orch.next_action(), Action::AwaitCompletion);
    orch.on_chunk_done(success(1, "", &data[c1.offset as usize..(c1.offset + c1.length) as usize]));
    let c2 = orch.start_chunk();
    orch.on_chunk_done(success(2, "", &data[c2.offset as usize..(c2.offset + c2.length) as usize]));
    orch.on_chunk_done(success(0, "", &data[c0.offset as usize..(c0.offset + c0.length) as usize]));

    assert_eq!(orch.phase, Phase::Completed);
    assert_eq!(orch.result.as_ref().unwrap().data, data);
}

#[test]
fn download_size_mismatch_is_an_integrity_failure() {
    let mut orch = TransferOrchestrator::new(cfg(25, 10, 10_000, 2), TransferKind::Download);
    let _ = orch.start_chunk();
    let _ = orch.start_chunk();
    orch.on_chunk_done(success(0, "", &[0u8; 10]));
    orch.on_chunk_done(success(1, "", &[0u8; 10]));
    let _ = orch.start_chunk();
    // The store hands back a truncated last span: 3 bytes instead of 5.
    orch.on_chunk_done(success(2, "", &[0u8; 3]));
    assert_eq!(orch.phase, Phase::Failed);
    assert_eq!(orch.error, Some(TransferError::IntegrityMismatch { expected: 25, actual: 23 }));
}

#[test]
fn upload_size_mismatch_after_commit_fails() {
    let mut orch = TransferOrchestrator::new(cfg(25, 25, 10_000, 1), TransferKind::Upload);
    orch.on_session_opened(true);
    let _ = orch.start_chunk();
    orch.on_chunk_done(success(0, "etag", b""));
    orch.on_commit(true);
    orch.on_size_report(7);
    assert_eq!(orch.phase, Phase::Failed);
    assert_eq!(orch.error, Some(TransferError::IntegrityMismatch { expected: 25, actual: 7 }));
}

#[test]
fn failed_chunk_drains_in_flight_work_then_aborts_session() {
    let mut orch = TransferOrchestrator::new(cfg(25, 10, 10_000, 2), TransferKind::Upload);
    orch.on_session_opened(true);
    let _ = orch.start_chunk();
    let _ = orch.start_chunk();
    orch.on_chunk_done(ChunkOutcome::Failure {
        index: 0,
        cause: ChunkError::Transient,
        attempts_made: 5,
    });
    // One worker is still in flight: no new dispatch, wait for it.
    assert_eq!(orch.phase, Phase::Running);
    assert_eq!(orch.next_action(), Action::AwaitCompletion);
    // Its (discarded) success returns the last permit; the open session
    // must be abandoned before the failure becomes terminal.
    orch.on_chunk_done(success(1, "etag", b""));
    assert_eq!(orch.phase, Phase::Aborting);
    assert_eq!(orch.next_action(), Action::AbortSession);
    orch.on_session_aborted();
    assert_eq!(orch.phase, Phase::Failed);
    assert_eq!(
        orch.error,
        Some(TransferError::Chunk { index: 0, cause: ChunkError::Transient, attempts_made: 5 })
    );
}

#[test]
fn failed_session_open_is_terminal() {
    let mut orch = TransferOrchestrator::new(cfg(25, 10, 10_000, 2), TransferKind::Upload);
    orch.on_session_opened(false);
    assert_eq!(orch.phase, Phase::Failed);
    assert_eq!(orch.error, Some(TransferError::Session));
}

#[test]
fn failed_commit_aborts_the_session() {
    let mut orch = TransferOrchestrator::new(cfg(10, 10, 10_000, 1), TransferKind::Upload);
    orch.on_session_opened(true);
    let _ = orch.start_chunk();
    orch.on_chunk_done(success(0, "etag", b""));
    assert_eq!(orch.next_action(), Action::Commit);
    orch.on_commit(false);
    assert_eq!(orch.phase, Phase::Aborting);
    orch.on_session_aborted();
    assert_eq!(orch.phase, Phase::Failed);
    assert_eq!(orch.error, Some(TransferError::Session));
}

#[test]
fn download_chunk_failure_fails_without_session_work() {
    let mut orch = TransferOrchestrator::new(cfg(10, 10, 10_000, 2), TransferKind::Download);
    let _ = orch.start_chunk();
    orch.on_chunk_done(ChunkOutcome::Failure {
        index: 0,
        cause: ChunkError::Permanent,
        attempts_made: 1,
    });
    assert_eq!(orch.phase, Phase::Failed);
    assert_eq!(
        orch.error,
        Some(TransferError::Chunk { index: 0, cause: ChunkError::Permanent, attempts_made: 1 })
    );
}
