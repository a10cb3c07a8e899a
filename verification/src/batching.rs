//! The batching stage that decouples producer-side emission from network
//! export: a bounded internal queue with a drop-newest overflow policy,
//! drained batch-wise by a flush whose failures lose the batch but never
//! duplicate or reorder anything.

use vstd::prelude::*;

verus! {

/// `a` is a subsequence of `b`: the elements of `a` occur in `b`, in order,
/// each matched to a distinct position.
pub open spec fn subseq_of<E>(a: Seq<E>, b: Seq<E>) -> bool
    decreases a.len() + b.len(),
{
    if a.len() == 0 {
        true
    } else if b.len() == 0 {
        false
    } else {
        (a[0] == b[0] && subseq_of(a.drop_first(), b.drop_first())) || subseq_of(
            a,
            b.drop_first(),
        )
    }
}

/// A subsequence is never longer than the sequence it is drawn from.
pub proof fn lemma_subseq_len<E>(a: Seq<E>, b: Seq<E>)
    requires
        subseq_of(a, b),
    ensures
        a.len() <= b.len(),
    decreases b.len(),
{
    if a.len() == 0 {
    } else if a[0] == b[0] && subseq_of(a.drop_first(), b.drop_first()) {
        lemma_subseq_len(a.drop_first(), b.drop_first());
    } else {
        lemma_subseq_len(a, b.drop_first());
    }
}

/// Appending on the right of the larger sequence preserves a subsequence.
pub proof fn lemma_subseq_push_right<E>(a: Seq<E>, b: Seq<E>, x: E)
    requires
        subseq_of(a, b),
    ensures
        subseq_of(a, b.push(x)),
    decreases b.len(),
{
    if a.len() == 0 {
    } else {
        assert(b.push(x).drop_first() =~= b.drop_first().push(x));
        if a[0] == b[0] && subseq_of(a.drop_first(), b.drop_first()) {
            lemma_subseq_push_right(a.drop_first(), b.drop_first(), x);
        } else {
            lemma_subseq_push_right(a, b.drop_first(), x);
        }
    }
}

/// A single element is a subsequence of any sequence it was appended to.
proof fn lemma_subseq_single_push<E>(b: Seq<E>, x: E)
    ensures
        subseq_of(seq![x], b.push(x)),
    decreases b.len(),
{
    if b.len() == 0 {
        assert(b.push(x)[0] == x);
        assert(seq![x][0] == x);
        assert(seq![x].drop_first() =~= Seq::<E>::empty());
        assert(b.push(x).drop_first() =~= Seq::<E>::empty());
        assert(subseq_of(Seq::<E>::empty(), Seq::<E>::empty()));
    } else {
        lemma_subseq_single_push(b.drop_first(), x);
        assert(b.push(x).drop_first() =~= b.drop_first().push(x));
    }
}

/// Appending the same element on the right of both sequences preserves a
/// subsequence.
pub proof fn lemma_subseq_push_both<E>(a: Seq<E>, b: Seq<E>, x: E)
    requires
        subseq_of(a, b),
    ensures
        subseq_of(a.push(x), b.push(x)),
    decreases b.len(),
{
    if a.len() == 0 {
        assert(a.push(x) =~= seq![x]);
        lemma_subseq_single_push(b, x);
    } else {
        assert(b.push(x).drop_first() =~= b.drop_first().push(x));
        assert(a.push(x).drop_first() =~= a.drop_first().push(x));
        if a[0] == b[0] && subseq_of(a.drop_first(), b.drop_first()) {
            lemma_subseq_push_both(a.drop_first(), b.drop_first(), x);
        } else {
            lemma_subseq_push_both(a, b.drop_first(), x);
        }
    }
}

/// A prefix of a subsequence is itself a subsequence.
pub proof fn lemma_subseq_take<E>(a: Seq<E>, b: Seq<E>, n: int)
    requires
        subseq_of(a, b),
        0 <= n <= a.len(),
    ensures
        subseq_of(a.take(n), b),
    decreases b.len(),
{
    if n == 0 {
        assert(a.take(0).len() == 0);
    } else {
        if a[0] == b[0] && subseq_of(a.drop_first(), b.drop_first()) {
            lemma_subseq_take(a.drop_first(), b.drop_first(), n - 1);
            assert(a.take(n)[0] == b[0]);
            assert(a.take(n).drop_first() =~= a.drop_first().take(n - 1));
        } else {
            lemma_subseq_take(a, b.drop_first(), n);
        }
    }
}

/// The buffering stage in front of one signal exporter. Producers push
/// events without blocking; a flush hands the queued batch to the exporter.
/// The queue is bounded; an event pushed against a full queue is dropped
/// (drop-newest). A failed flush loses its batch entirely: delivery is
/// at-most-once and order-preserving, never duplicating.
pub struct BatchingPipeline<E> {
    queue: Vec<E>,
    capacity: usize,
    pushed: Ghost<Seq<E>>,
    delivered: Ghost<Seq<E>>,
}

impl<E> BatchingPipeline<E> {
    /// The events currently buffered, oldest first.
    pub closed spec fn queued(self) -> Seq<E> {
        self.queue@
    }

    /// The bound on the internal buffer.
    pub closed spec fn capacity(self) -> usize {
        self.capacity
    }

    /// Every event ever pushed, in push order.
    pub closed spec fn pushed(self) -> Seq<E> {
        self.pushed@
    }

    /// Every event ever handed to the exporter by a successful flush, in
    /// delivery order.
    pub closed spec fn delivered(self) -> Seq<E> {
        self.delivered@
    }

    /// What was delivered, followed by what still waits, is an in-order
    /// selection of what was pushed; the buffer respects its bound.
    pub open spec fn wf(self) -> bool {
        &&& subseq_of(self.delivered() + self.queued(), self.pushed())
        &&& self.queued().len() <= self.capacity()
        &&& self.capacity() >= 1
    }

    /// A fresh pipeline with the given buffer bound and no history.
    pub fn new(capacity: usize) -> (r: BatchingPipeline<E>)
        requires
            capacity >= 1,
        ensures
            r.wf(),
            r.queued() == Seq::<E>::empty(),
            r.pushed() == Seq::<E>::empty(),
            r.delivered() == Seq::<E>::empty(),
            r.capacity() == capacity,
    {
        let r = BatchingPipeline {
            queue: Vec::new(),
            capacity,
            pushed: Ghost(Seq::empty()),
            delivered: Ghost(Seq::empty()),
        };
        proof {
            assert(r.delivered() + r.queued() =~= Seq::<E>::empty());
        }
        r
    }

    /// The number of events currently buffered.
    pub fn queued_len(&self) -> (n: usize)
        ensures
            n == self.queued().len(),
    {
        self.queue.len()
    }

    /// Non-blocking enqueue. The event is accepted exactly when the buffer
    /// has room; against a full buffer it is dropped (drop-newest), never
    /// displacing older events.
    pub fn push(&mut self, event: E) -> (accepted: bool)
        requires
            old(self).wf(),
        ensures
            final(self).wf(),
            final(self).capacity() == old(self).capacity(),
            final(self).pushed() == old(self).pushed().push(event),
            final(self).delivered() == old(self).delivered(),
            accepted == (old(self).queued().len() < old(self).capacity()),
            accepted ==> final(self).queued() == old(self).queued().push(event),
            !accepted ==> final(self).queued() == old(self).queued(),
    {
        proof {
            self.pushed@ = self.pushed@.push(event);
        }
        if self.queue.len() < self.capacity {
            proof {
                assert(
                    (old(self).delivered() + old(self).queued()).push(event)
                        =~= old(self).delivered() + old(self).queued().push(event)
                );
                lemma_subseq_push_both(
                    old(self).delivered() + old(self).queued(),
                    old(self).pushed(),
                    event,
                );
            }
            self.queue.push(event);
            true
        } else {
            proof {
                lemma_subseq_push_right(
                    old(self).delivered() + old(self).queued(),
                    old(self).pushed(),
                    event,
                );
            }
            false
        }
    }

    /// Drains the buffer as one batch. On a successful export the batch is
    /// delivered, oldest first; on a failed export the batch is lost, with
    /// nothing duplicated, reordered, or surfaced to producers.
    pub fn flush(&mut self, export_ok: bool) -> (sent: Vec<E>)
        requires
            old(self).wf(),
        ensures
            final(self).wf(),
            final(self).capacity() == old(self).capacity(),
            final(self).pushed() == old(self).pushed(),
            final(self).queued() == Seq::<E>::empty(),
            export_ok ==> sent@ == old(self).queued() && final(self).delivered() == old(
                self,
            ).delivered() + old(self).queued(),
            !export_ok ==> sent@ == Seq::<E>::empty() && final(self).delivered() == old(
                self,
            ).delivered(),
    {
        let mut batch: Vec<E> = Vec::new();
        core::mem::swap(&mut self.queue, &mut batch);
        if export_ok {
            proof {
                self.delivered@ = self.delivered@ + batch@;
                assert(
                    self.delivered() + self.queued()
                        =~= old(self).delivered() + old(self).queued()
                );
            }
            batch
        } else {
            proof {
                lemma_subseq_take(
                    old(self).delivered() + old(self).queued(),
                    old(self).pushed(),
                    old(self).delivered().len() as int,
                );
                assert(
                    (old(self).delivered() + old(self).queued()).take(
                        old(self).delivered().len() as int,
                    ) =~= old(self).delivered()
                );
                assert(self.delivered() + self.queued() =~= old(self).delivered());
            }
            Vec::new()
        }
    }
}

/// Delivery is at-most-once and order-preserving: in any reachable pipeline
/// state, what has been delivered is an in-order selection of what was
/// pushed — under exporter failures events may be lost, but never
/// duplicated or reordered — and so the delivered count never exceeds the
/// pushed count.
pub proof fn lemma_delivery_at_most_once_in_order<E>(p: BatchingPipeline<E>)
    requires
        p.wf(),
    ensures
        subseq_of(p.delivered(), p.pushed()),
        p.delivered().len() <= p.pushed().len(),
{
    lemma_subseq_take(p.delivered() + p.queued(), p.pushed(), p.delivered().len() as int);
    assert((p.delivered() + p.queued()).take(p.delivered().len() as int) =~= p.delivered());
    lemma_subseq_len(p.delivered(), p.pushed());
}

} // verus!
