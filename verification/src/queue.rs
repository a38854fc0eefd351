//! The bounded, FIFO span queue that decouples producers from delivery.
//!
//! The queue's abstract state is a [`QueueModel`]: the sequence of queued
//! spans in insertion order, the count of spans it has discarded, and the
//! fixed capacity and overflow policy. Every operation's contract is
//! stated as a function of that model, and the laws at the end of this
//! module are proved over the same model.

use vstd::prelude::*;

use crate::config::OverflowPolicy;
use crate::span::QueuedSpan;

verus! {

/// The queue refused the span; the caller still owns it.
#[derive(Clone, Copy, Debug, PartialEq, Eq, Structural)]
pub struct QueueFull;

/// Abstract state of a [`SpanQueue`].
#[verifier::ext_equal]
pub ghost struct QueueModel {
    /// Queued spans, oldest first.
    pub spans: Seq<QueuedSpan>,
    /// How many spans the queue has discarded (evicted under `DropOldest`,
    /// or refused and destroyed under `DropNewest`). Spans refused under
    /// `Reject` or `Block` stay with the caller and are not counted.
    pub dropped: nat,
    /// Fixed capacity; `spans` never grows beyond it.
    pub cap: nat,
    /// Fixed overflow policy.
    pub policy: OverflowPolicy,
}

/// What one enqueue does to the abstract state.
pub open spec fn enqueue_model(m: QueueModel, s: QueuedSpan) -> QueueModel {
    if m.spans.len() < m.cap {
        QueueModel { spans: m.spans.push(s), dropped: m.dropped, cap: m.cap, policy: m.policy }
    } else {
        match m.policy {
            OverflowPolicy::DropOldest => QueueModel {
                spans: m.spans.drop_first().push(s),
                dropped: m.dropped + 1,
                cap: m.cap,
                policy: m.policy,
            },
            OverflowPolicy::DropNewest => QueueModel {
                spans: m.spans,
                dropped: m.dropped + 1,
                cap: m.cap,
                policy: m.policy,
            },
            OverflowPolicy::Reject => m,
            OverflowPolicy::Block { .. } => m,
        }
    }
}

/// Whether an enqueue on state `m` reports success. Under `DropNewest` the
/// span is destroyed but the call still reports success; the loss is
/// observable through the dropped counter.
pub open spec fn enqueue_accepts(m: QueueModel) -> bool {
    ||| m.spans.len() < m.cap
    ||| m.policy is DropOldest
    ||| m.policy is DropNewest
}

/// Bounded FIFO buffer of spans awaiting export.
pub struct SpanQueue {
    buf: Vec<QueuedSpan>,
    capacity: usize,
    policy: OverflowPolicy,
    /// Executable mirror of the model's dropped counter; saturates at
    /// `u64::MAX` while the model keeps the exact count.
    dropped: u64,
    dropped_total: Ghost<nat>,
}

impl View for SpanQueue {
    type V = QueueModel;

    closed spec fn view(&self) -> QueueModel {
        QueueModel {
            spans: self.buf@,
            dropped: self.dropped_total@,
            cap: self.capacity as nat,
            policy: self.policy,
        }
    }
}

impl SpanQueue {
    /// Capacity respected, and the saturating counter tracks the model.
    pub open spec fn wf(&self) -> bool {
        &&& self@.spans.len() <= self@.cap
        &&& self@.cap >= 1
        &&& (self@.dropped <= u64::MAX ==> self.dropped_view() == self@.dropped)
        &&& (self@.dropped > u64::MAX ==> self.dropped_view() == u64::MAX as nat)
    }

    /// The value the executable dropped counter shows.
    pub closed spec fn dropped_view(&self) -> nat {
        self.dropped as nat
    }

    /// An empty queue with the given capacity and overflow policy.
    pub fn new(capacity: usize, policy: OverflowPolicy) -> (q: SpanQueue)
        requires
            capacity >= 1,
        ensures
            q.wf(),
            q@.spans == Seq::<QueuedSpan>::empty(),
            q@.dropped == 0,
            q@.cap == capacity as nat,
            q@.policy == policy,
    {
        let q = SpanQueue {
            buf: Vec::new(),
            capacity,
            policy,
            dropped: 0,
            dropped_total: Ghost(0nat),
        };
        proof {
            assert(q@.spans =~= Seq::<QueuedSpan>::empty());
        }
        q
    }

    fn count_drop(&mut self)
        requires
            old(self).wf(),
        ensures
            final(self).wf(),
            final(self)@ == (QueueModel {
                spans: old(self)@.spans,
                dropped: old(self)@.dropped + 1,
                cap: old(self)@.cap,
                policy: old(self)@.policy,
            }),
    {
        if self.dropped < u64::MAX {
            self.dropped = self.dropped + 1;
        }
        proof {
            self.dropped_total@ = old(self).dropped_total@ + 1;
        }
    }

    /// Accepts a span, applying the overflow policy when full.
    ///
    /// The new abstract state is exactly `enqueue_model` of the old one,
    /// and the call reports success exactly when `enqueue_accepts` says so.
    pub fn enqueue(&mut self, s: QueuedSpan) -> (r: Result<(), QueueFull>)
        requires
            old(self).wf(),
        ensures
            final(self).wf(),
            final(self)@ == enqueue_model(old(self)@, s),
            r is Ok <==> enqueue_accepts(old(self)@),
    {
        if self.buf.len() < self.capacity {
            self.buf.push(s);
            return Ok(());
        }
        match self.policy {
            OverflowPolicy::DropOldest => {
                let _evicted = self.buf.remove(0);
                self.buf.push(s);
                self.count_drop();
                proof {
                    assert(self@.spans =~= old(self)@.spans.drop_first().push(s));
                }
                Ok(())
            },
            OverflowPolicy::DropNewest => {
                self.count_drop();
                Ok(())
            },
            OverflowPolicy::Reject => Err(QueueFull),
            OverflowPolicy::Block { .. } => Err(QueueFull),
        }
    }

    /// Removes and returns up to `max_items` spans from the front,
    /// oldest first; non-blocking, possibly empty.
    pub fn drain(&mut self, max_items: usize) -> (out: Vec<QueuedSpan>)
        requires
            old(self).wf(),
        ensures
            final(self).wf(),
            out@ == old(self)@.spans.take(drain_count(old(self)@, max_items as nat) as int),
            final(self)@.spans == old(self)@.spans.skip(
                drain_count(old(self)@, max_items as nat) as int,
            ),
            final(self)@.dropped == old(self)@.dropped,
            final(self)@.cap == old(self)@.cap,
            final(self)@.policy == old(self)@.policy,
    {
        let n: usize = if max_items < self.buf.len() {
            max_items
        } else {
            self.buf.len()
        };
        let mut out: Vec<QueuedSpan> = Vec::new();
        let mut i: usize = 0;
        while i < n
            invariant
                i <= n,
                n as nat == drain_count(old(self)@, max_items as nat),
                n <= old(self)@.spans.len(),
                out@ =~= old(self)@.spans.take(i as int),
                self.buf@ =~= old(self)@.spans.skip(i as int),
                self.capacity == old(self).capacity,
                self.policy == old(self).policy,
                self.dropped == old(self).dropped,
                self.dropped_total@ == old(self).dropped_total@,
            decreases n - i,
        {
            let x = self.buf.remove(0);
            out.push(x);
            i = i + 1;
            proof {
                assert(out@ =~= old(self)@.spans.take(i as int));
                assert(self.buf@ =~= old(self)@.spans.skip(i as int));
            }
        }
        proof {
            assert(out@ =~= old(self)@.spans.take(n as int));
        }
        out
    }

    /// Number of spans currently queued.
    pub fn len(&self) -> (r: usize)
        ensures
            r as nat == self@.spans.len(),
    {
        self.buf.len()
    }

    /// The saturating dropped-span counter; equals the model's count
    /// whenever that count fits in a `u64`.
    pub fn dropped_count(&self) -> (r: u64)
        requires
            self.wf(),
        ensures
            self@.dropped <= u64::MAX ==> r as nat == self@.dropped,
            self@.dropped > u64::MAX ==> r == u64::MAX,
    {
        self.dropped
    }

    /// The timestamp at which the oldest queued span was accepted, if any.
    pub fn oldest_enqueued_at(&self) -> (r: Option<u64>)
        ensures
            r is Some <==> self@.spans.len() > 0,
            r matches Some(t) ==> t == self@.spans[0].enqueued_at_ms,
    {
        if self.buf.len() > 0 {
            Some(self.buf[0].enqueued_at_ms)
        } else {
            None
        }
    }
}

/// How many spans a `drain(max_items)` removes.
pub open spec fn drain_count(m: QueueModel, max_items: nat) -> nat {
    if max_items < m.spans.len() {
        max_items
    } else {
        m.spans.len()
    }
}

/// The abstract state after enqueuing a whole sequence, first to last.
pub open spec fn enqueue_all(m: QueueModel, xs: Seq<QueuedSpan>) -> QueueModel
    decreases xs.len(),
{
    if xs.len() == 0 {
        m
    } else {
        enqueue_all(enqueue_model(m, xs[0]), xs.drop_first())
    }
}

/// FIFO order: as long as capacity is not exceeded, enqueues append in
/// order and drop nothing, so a later drain hands spans back in exactly
/// the order they were recorded.
pub proof fn lemma_under_capacity_keeps_insertion_order(m: QueueModel, xs: Seq<QueuedSpan>)
    requires
        m.spans.len() + xs.len() <= m.cap,
    ensures
        enqueue_all(m, xs).spans == m.spans + xs,
        enqueue_all(m, xs).dropped == m.dropped,
        enqueue_all(m, xs).cap == m.cap,
        enqueue_all(m, xs).policy == m.policy,
    decreases xs.len(),
{
    if xs.len() == 0 {
        assert(m.spans + xs =~= m.spans);
    } else {
        let m1 = enqueue_model(m, xs[0]);
        lemma_under_capacity_keeps_insertion_order(m1, xs.drop_first());
        assert(m.spans.push(xs[0]) + xs.drop_first() =~= m.spans + xs);
    }
}

/// Under `DropOldest` with capacity `cap`, enqueuing any sequence keeps
/// exactly the last `cap` spans of (existing ++ new), and the dropped
/// counter grows by exactly the number that did not fit.
pub proof fn lemma_drop_oldest_retains_last(m: QueueModel, xs: Seq<QueuedSpan>)
    requires
        m.policy is DropOldest,
        m.spans.len() <= m.cap,
        m.cap >= 1,
    ensures
        enqueue_all(m, xs).cap == m.cap,
        enqueue_all(m, xs).policy == m.policy,
        m.spans.len() + xs.len() <= m.cap ==> {
            &&& enqueue_all(m, xs).spans == m.spans + xs
            &&& enqueue_all(m, xs).dropped == m.dropped
        },
        m.spans.len() + xs.len() > m.cap ==> {
            &&& enqueue_all(m, xs).spans == (m.spans + xs).skip(
                m.spans.len() + xs.len() - m.cap,
            )
            &&& enqueue_all(m, xs).dropped == m.dropped + (m.spans.len() + xs.len() - m.cap)
        },
    decreases xs.len(),
{
    if xs.len() == 0 {
        assert(m.spans + xs =~= m.spans);
    } else {
        let m1 = enqueue_model(m, xs[0]);
        let rest = xs.drop_first();
        lemma_drop_oldest_retains_last(m1, rest);
        if m.spans.len() < m.cap {
            assert(m1.spans =~= m.spans.push(xs[0]));
            assert(m1.spans + rest =~= m.spans + xs);
        } else {
            assert(m1.spans =~= m.spans.drop_first().push(xs[0]));
            assert(m1.spans + rest =~= (m.spans + xs).skip(1));
            if m1.spans.len() + rest.len() > m.cap {
                let total = m.spans + xs;
                let k1 = m1.spans.len() + rest.len() - m.cap;
                assert((total.skip(1)).skip(k1 as int) =~= total.skip(k1 + 1));
                assert(enqueue_all(m1, rest).spans == (m1.spans + rest).skip(k1 as int));
                assert((m1.spans + rest).skip(k1 as int) =~= total.skip(1).skip(k1 as int));
            }
        }
    }
}

/// Under `Block`, the queue never destroys a span: an enqueue either
/// appends the span at the tail (when there is room) or changes nothing
/// and reports `QueueFull`, leaving the span with the caller. Existing
/// spans never move, so each producer's relative order is preserved.
pub proof fn lemma_block_never_discards(m: QueueModel, s: QueuedSpan)
    requires
        m.policy matches OverflowPolicy::Block { .. },
    ensures
        enqueue_model(m, s).dropped == m.dropped,
        m.spans.len() < m.cap ==> enqueue_model(m, s).spans == m.spans.push(s),
        m.spans.len() >= m.cap ==> enqueue_model(m, s) == m && !enqueue_accepts(m),
        m.spans.is_prefix_of(enqueue_model(m, s).spans),
{
    if m.spans.len() < m.cap {
        assert(m.spans.is_prefix_of(m.spans.push(s)));
    }
}

} // verus!
