use rust_axum_newrelic_example::batching::BatchingPipeline;

#[test]
fn successful_flush_delivers_the_batch_in_push_order() {
    let mut p: BatchingPipeline<u64> = BatchingPipeline::new(8);
    assert!(p.push(1));
    assert!(p.push(2));
    assert!(p.push(3));
    assert_eq!(p.queued_len(), 3);
    let sent = p.flush(true);
    assert_eq!(sent, vec![1, 2, 3]);
    assert_eq!(p.queued_len(), 0);
}

#[test]
fn failed_flush_loses_the_batch_without_duplication_or_reorder() {
    let mut p: BatchingPipeline<u64> = BatchingPipeline::new(8);
    assert!(p.push(1));
    assert!(p.push(2));
    let sent = p.flush(false);
    assert_eq!(sent, Vec::<u64>::new());
    assert_eq!(p.queued_len(), 0);
    // Later events still go through, in order, and the lost ones never
    // reappear.
    assert!(p.push(3));
    assert!(p.push(4));
    let sent = p.flush(true);
    assert_eq!(sent, vec![3, 4]);
}

#[test]
fn at_most_n_events_come_out_of_n_pushes() {
    let mut p: BatchingPipeline<u64> = BatchingPipeline::new(8);
    let mut delivered: Vec<u64> = Vec::new();
    for e in 0..6u64 {
        p.push(e);
        if e % 2 == 1 {
            delivered.extend(p.flush(e % 4 == 1));
        }
    }
    delivered.extend(p.flush(true));
    assert!(delivered.len() <= 6);
    // In-order subsequence of 0..6: strictly increasing here.
    for w in delivered.windows(2) {
        assert!(w[0] < w[1]);
    }
}

#[test]
fn a_full_buffer_drops_the_newest_event() {
    let mut p: BatchingPipeline<u64> = BatchingPipeline::new(2);
    assert!(p.push(10));
    assert!(p.push(11));
    assert!(!p.push(12));
    assert_eq!(p.queued_len(), 2);
    let sent = p.flush(true);
    assert_eq!(sent, vec![10, 11]);
}
