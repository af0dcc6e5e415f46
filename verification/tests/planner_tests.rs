use s3_transfer::{plan, PlanError};

#[test]
fn plan_25mb_object_makes_three_chunks() {
    let ranges = plan(25_000_000, 10_000_000, 10_000).unwrap();
    assert_eq!(ranges.len(), 3);
    let part_numbers: Vec<u32> = ranges.iter().map(|r| r.part_number()).collect();
    assert_eq!(part_numbers, vec![1, 2, 3]);
    assert_eq!((ranges[0].index, ranges[0].offset, ranges[0].length), (0, 0, 10_000_000));
    assert_eq!((ranges[1].index, ranges[1].offset, ranges[1].length), (1, 10_000_000, 10_000_000));
    assert_eq!((ranges[2].index, ranges[2].offset, ranges[2].length), (2, 20_000_000, 5_000_000));
}

#[test]
fn plan_exact_multiple_has_full_last_chunk() {
    let ranges = plan(30, 10, 100).unwrap();
    assert_eq!(ranges.len(), 3);
    assert_eq!(ranges[2].offset, 20);
    assert_eq!(ranges[2].length, 10);
}

#[test]
fn plan_object_smaller_than_chunk_is_one_chunk() {
    let ranges = plan(7, 10, 100).unwrap();
    assert_eq!(ranges.len(), 1);
    assert_eq!((ranges[0].offset, ranges[0].length), (0, 7));
}

#[test]
fn plan_chunk_size_one_partitions_per_byte() {
    let ranges = plan(5, 1, 100).unwrap();
    assert_eq!(ranges.len(), 5);
    for (i, r) in ranges.iter().enumerate() {
        assert_eq!(r.index as usize, i);
        assert_eq!(r.offset as usize, i);
        assert_eq!(r.length, 1);
    }
}

#[test]
fn plan_ranges_partition_exactly() {
    // Union is the full interval, no gaps, no overlaps, ascending order,
    // and the count is the ceiling of total / chunk.
    for (total, chunk) in [(1u64, 1u64), (9, 4), (100, 7), (25_000_000, 10_000_000)] {
        let ranges = plan(total, chunk, u32::MAX as u64).unwrap();
        let ceil = total / chunk + if total % chunk == 0 { 0 } else { 1 };
        assert_eq!(ranges.len() as u64, ceil);
        assert_eq!(ranges[0].offset, 0);
        for w in ranges.windows(2) {
            assert_eq!(w[0].offset + w[0].length, w[1].offset);
            assert!(w[0].index < w[1].index);
        }
        let last = ranges.last().unwrap();
        assert_eq!(last.offset + last.length, total);
        for r in &ranges {
            assert!(r.length > 0 && r.length <= chunk);
        }
    }
}

#[test]
fn plan_empty_object_is_rejected() {
    assert_eq!(plan(0, 10_000_000, 10_000), Err(PlanError::EmptyObject));
    assert_eq!(plan(0, 1, 1), Err(PlanError::EmptyObject));
}

#[test]
fn plan_too_many_chunks_is_rejected() {
    // 12,000 chunks of 10 MB against a ceiling of 10,000.
    assert_eq!(plan(120_000_000_000, 10_000_000, 10_000), Err(PlanError::TooManyChunks));
    // Exactly at the ceiling is fine.
    assert!(plan(100_000_000_000, 10_000_000, 10_000).is_ok());
}
