use s3_transfer::worker::{transfer, AttemptResult, ChunkOutcome};
use s3_transfer::{backoff_delay_ms, ChunkError, RetryDecision, RetryState};

fn transient() -> AttemptResult {
    AttemptResult::Failed { cause: ChunkError::Transient }
}

fn delivered(tag: &str) -> AttemptResult {
    AttemptResult::Delivered { part_tag: tag.to_string(), bytes: Vec::new() }
}

#[test]
fn chunk_succeeding_on_last_allowed_attempt_is_success() {
    // Fails transiently max_retries - 1 times, then succeeds.
    let max_retries = 5;
    let attempts = vec![transient(), transient(), transient(), transient(), delivered("etag-9")];
    match transfer(7, &attempts, max_retries) {
        ChunkOutcome::Success { index, part_tag, bytes } => {
            assert_eq!(index, 7);
            assert_eq!(part_tag, "etag-9");
            assert!(bytes.is_empty());
        }
        ChunkOutcome::Failure { .. } => panic!("expected success"),
    }
}

#[test]
fn chunk_exhausting_retries_reports_attempt_count() {
    let max_retries = 5;
    let attempts = vec![transient(), transient(), transient(), transient(), transient()];
    match transfer(3, &attempts, max_retries) {
        ChunkOutcome::Failure { index, cause, attempts_made } => {
            assert_eq!(index, 3);
            assert_eq!(cause, ChunkError::Transient);
            assert_eq!(attempts_made, max_retries);
        }
        ChunkOutcome::Success { .. } => panic!("expected failure"),
    }
}

#[test]
fn permanent_failure_stops_retrying_at_once() {
    let attempts = vec![
        transient(),
        AttemptResult::Failed { cause: ChunkError::Permanent },
        delivered("never-reached"),
        delivered("never-reached"),
        delivered("never-reached"),
    ];
    match transfer(0, &attempts, 5) {
        ChunkOutcome::Failure { cause, attempts_made, .. } => {
            assert_eq!(cause, ChunkError::Permanent);
            assert_eq!(attempts_made, 2);
        }
        ChunkOutcome::Success { .. } => panic!("expected failure"),
    }
}

#[test]
fn first_attempt_success_uses_one_attempt() {
    let attempts = vec![delivered("tag-1"), transient(), transient()];
    match transfer(0, &attempts, 3) {
        ChunkOutcome::Success { part_tag, .. } => assert_eq!(part_tag, "tag-1"),
        ChunkOutcome::Failure { .. } => panic!("expected success"),
    }
}

#[test]
fn backoff_delay_is_exact_and_non_decreasing() {
    assert_eq!(backoff_delay_ms(0), 0);
    assert_eq!(backoff_delay_ms(1), 300);
    assert_eq!(backoff_delay_ms(2), 600);
    assert_eq!(backoff_delay_ms(5), 1500);
    let mut last = 0;
    for attempt in 0..100 {
        let d = backoff_delay_ms(attempt);
        assert!(d >= last);
        last = d;
    }
}

#[test]
fn retry_state_walks_the_policy() {
    let mut s = RetryState::new(3);
    assert_eq!(s.attempts_made, 0);
    match s.on_failure(ChunkError::Transient) {
        RetryDecision::RetryAfter { delay_ms } => assert_eq!(delay_ms, 300),
        RetryDecision::GiveUp => panic!("should retry"),
    }
    match s.on_failure(ChunkError::Transient) {
        RetryDecision::RetryAfter { delay_ms } => assert_eq!(delay_ms, 600),
        RetryDecision::GiveUp => panic!("should retry"),
    }
    // Third failure exhausts the allowance.
    assert_eq!(s.on_failure(ChunkError::Transient), RetryDecision::GiveUp);
    assert_eq!(s.attempts_made, 3);
    assert_eq!(s.last_cause, Some(ChunkError::Transient));
}

#[test]
fn retry_state_gives_up_on_permanent_failure() {
    let mut s = RetryState::new(5);
    assert_eq!(s.on_failure(ChunkError::Permanent), RetryDecision::GiveUp);
    assert_eq!(s.attempts_made, 1);
}
