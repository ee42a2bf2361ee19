use feedforward::batch::{batches, Batch};

fn ranges(rows: usize, size: usize) -> Vec<(usize, usize)> {
    batches(rows, size).iter().map(|b| (b.start, b.end)).collect()
}

#[test]
fn remainder_goes_to_last_batch() {
    assert_eq!(ranges(10, 3), vec![(0, 3), (3, 6), (6, 9), (9, 10)]);
}

#[test]
fn exact_multiple_gives_full_batches() {
    assert_eq!(ranges(9, 3), vec![(0, 3), (3, 6), (6, 9)]);
}

#[test]
fn no_rows_no_batches() {
    assert!(batches(0, 4).is_empty());
}

#[test]
fn batch_larger_than_data_set() {
    assert_eq!(batches(5, 32), vec![Batch { start: 0, end: 5 }]);
}

#[test]
fn batch_of_one_row() {
    assert_eq!(ranges(3, 1), vec![(0, 1), (1, 2), (2, 3)]);
}

#[test]
fn count_is_ceiling_and_last_size_is_remainder() {
    for rows in 0..60usize {
        for size in 1..12usize {
            let b = batches(rows, size);
            assert_eq!(b.len(), (rows + size - 1) / size);
            let mut next = 0;
            for (k, batch) in b.iter().enumerate() {
                assert_eq!(batch.start, next);
                assert!(batch.end > batch.start);
                if k + 1 < b.len() {
                    assert_eq!(batch.end - batch.start, size);
                } else {
                    let last = if rows % size != 0 { rows - size * (rows / size) } else { size };
                    assert_eq!(batch.end - batch.start, last);
                }
                next = batch.end;
            }
            assert_eq!(next, rows);
        }
    }
}

#[test]
fn thousand_samples_in_batches_of_ten() {
    let b = batches(1000, 10);
    assert_eq!(b.len(), 100);
    assert!(b.iter().all(|x| x.end - x.start == 10));
    assert_eq!(b[99], Batch { start: 990, end: 1000 });
}

#[test]
fn largest_row_count_does_not_overflow() {
    let b = batches(usize::MAX, usize::MAX / 2 + 1);
    assert_eq!(b.len(), 2);
    assert_eq!(b[1].end, usize::MAX);
}
