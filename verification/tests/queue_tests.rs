use span_exporter::config::OverflowPolicy;
use span_exporter::queue::SpanQueue;
use span_exporter::span::{QueuedSpan, SpanRecord};

fn span(id: u64) -> QueuedSpan {
    QueuedSpan {
        span: SpanRecord {
            trace_id: 1,
            span_id: id,
            parent_span_id: None,
            name: format!("op-{}", id),
            start_ms: id,
            end_ms: id + 1,
            attributes: Vec::new(),
        },
        enqueued_at_ms: id,
    }
}

fn ids(items: &[QueuedSpan]) -> Vec<u64> {
    items.iter().map(|q| q.span.span_id).collect()
}

#[test]
fn drain_returns_spans_in_insertion_order() {
    let mut q = SpanQueue::new(8, OverflowPolicy::Reject);
    for id in 0..6u64 {
        q.enqueue(span(id)).unwrap();
    }
    let out = q.drain(6);
    assert_eq!(ids(&out), vec![0, 1, 2, 3, 4, 5]);
    assert_eq!(q.len(), 0);
    assert_eq!(q.dropped_count(), 0);
}

#[test]
fn drain_takes_at_most_max_items_from_the_front() {
    let mut q = SpanQueue::new(8, OverflowPolicy::Reject);
    for id in 0..5u64 {
        q.enqueue(span(id)).unwrap();
    }
    let first = q.drain(2);
    assert_eq!(ids(&first), vec![0, 1]);
    assert_eq!(q.len(), 3);
    let rest = q.drain(10);
    assert_eq!(ids(&rest), vec![2, 3, 4]);
    assert_eq!(q.len(), 0);
}

#[test]
fn drop_oldest_retains_exactly_the_last_n() {
    let n: usize = 3;
    let k: u64 = 4;
    let mut q = SpanQueue::new(n, OverflowPolicy::DropOldest);
    for id in 0..(n as u64 + k) {
        q.enqueue(span(id)).unwrap();
    }
    assert_eq!(q.dropped_count(), k);
    let out = q.drain(n);
    assert_eq!(ids(&out), vec![4, 5, 6]);
}

#[test]
fn drop_newest_discards_the_incoming_span() {
    let mut q = SpanQueue::new(2, OverflowPolicy::DropNewest);
    q.enqueue(span(0)).unwrap();
    q.enqueue(span(1)).unwrap();
    q.enqueue(span(2)).unwrap();
    assert_eq!(q.dropped_count(), 1);
    let out = q.drain(2);
    assert_eq!(ids(&out), vec![0, 1]);
}

#[test]
fn reject_refuses_and_counts_nothing() {
    let mut q = SpanQueue::new(2, OverflowPolicy::Reject);
    q.enqueue(span(0)).unwrap();
    q.enqueue(span(1)).unwrap();
    assert!(q.enqueue(span(2)).is_err());
    assert_eq!(q.dropped_count(), 0);
    let out = q.drain(2);
    assert_eq!(ids(&out), vec![0, 1]);
}

#[test]
fn block_refuses_without_losing_anything() {
    let mut q = SpanQueue::new(2, OverflowPolicy::Block { timeout_ms: 50 });
    q.enqueue(span(0)).unwrap();
    q.enqueue(span(1)).unwrap();
    assert!(q.enqueue(span(2)).is_err());
    assert_eq!(q.dropped_count(), 0);
    assert_eq!(q.len(), 2);
    let _ = q.drain(1);
    q.enqueue(span(2)).unwrap();
    let out = q.drain(2);
    assert_eq!(ids(&out), vec![1, 2]);
}

#[test]
fn oldest_enqueued_at_tracks_the_front() {
    let mut q = SpanQueue::new(4, OverflowPolicy::Reject);
    assert_eq!(q.oldest_enqueued_at(), None);
    q.enqueue(span(7)).unwrap();
    q.enqueue(span(9)).unwrap();
    assert_eq!(q.oldest_enqueued_at(), Some(7));
    let _ = q.drain(1);
    assert_eq!(q.oldest_enqueued_at(), Some(9));
}
