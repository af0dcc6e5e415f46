use s3_transfer::worker::ChunkOutcome;
use s3_transfer::{plan, ChunkError, ResultAggregator};

fn success(index: u32, tag: &str, bytes: &[u8]) -> ChunkOutcome {
    ChunkOutcome::Success { index, part_tag: tag.to_string(), bytes: bytes.to_vec() }
}

#[test]
fn out_of_order_completions_come_back_in_index_order() {
    let mut agg = ResultAggregator::new(3);
    agg.record(success(2, "tag-c", b"CC"));
    agg.record(success(0, "tag-a", b"AA"));
    agg.record(success(1, "tag-b", b"BB"));
    assert!(agg.complete());
    assert!(!agg.failed());
    let res = agg.finalize();
    let numbers: Vec<u32> = res.parts.iter().map(|p| p.part_number).collect();
    assert_eq!(numbers, vec![1, 2, 3]);
    let tags: Vec<&str> = res.parts.iter().map(|p| p.part_tag.as_str()).collect();
    assert_eq!(tags, vec!["tag-a", "tag-b", "tag-c"]);
    assert_eq!(res.data, b"AABBCC");
}

#[test]
fn split_and_reassemble_returns_original_bytes() {
    // Round trip: plan a byte sequence, feed the chunks in a scrambled
    // completion order, and the assembled bytes are the original.
    let data: Vec<u8> = (0..=255u8).cycle().take(1000).collect();
    let chunk = 64u64;
    let ranges = plan(data.len() as u64, chunk, 10_000).unwrap();
    let mut agg = ResultAggregator::new(ranges.len());
    let mut order: Vec<usize> = (0..ranges.len()).collect();
    order.reverse();
    order.swap(0, 3);
    for i in order {
        let r = &ranges[i];
        let span = &data[r.offset as usize..(r.offset + r.length) as usize];
        agg.record(success(r.index, "t", span));
    }
    assert!(agg.complete());
    let res = agg.finalize();
    assert_eq!(res.data, data);
}

#[test]
fn first_failure_is_kept_and_slots_untouched() {
    let mut agg = ResultAggregator::new(2);
    agg.record(ChunkOutcome::Failure { index: 1, cause: ChunkError::Transient, attempts_made: 5 });
    agg.record(ChunkOutcome::Failure { index: 0, cause: ChunkError::Permanent, attempts_made: 1 });
    assert!(agg.failed());
    let f = agg.first_failure().unwrap();
    assert_eq!((f.index, f.cause, f.attempts_made), (1, ChunkError::Transient, 5));
    assert!(!agg.complete());
}

#[test]
fn slot_empty_tracks_recorded_successes() {
    let mut agg = ResultAggregator::new(2);
    assert!(agg.slot_empty(0) && agg.slot_empty(1));
    agg.record(success(1, "t", b""));
    assert!(agg.slot_empty(0));
    assert!(!agg.slot_empty(1));
}
