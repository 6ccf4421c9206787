//! Handing requests back to nginx once their background work is done.
//!
//! A worker that has finished with a request puts it at the back of the
//! finished queue; nginx's event loop then takes requests from the front,
//! one at a time, releases their `blocked` count and resumes them.
use crate::memory::{HeapView, NgxHeap};
use crate::request::Request;
use std::collections::VecDeque;
use vstd::prelude::*;

verus! {

/// What taking one request off the finished queue led to.
#[derive(Clone, Copy, Debug)]
pub enum Finished {
    /// The queue was empty: nothing left to do.
    QueueEmpty,
    /// The request's pool is gone, so the request is not resumed.
    PoolGone(Request),
    /// `ngx_http_handler` is to be run on the request.
    Resume(Request),
}

/// Every handle in the queue designates a request of `h`.
pub open spec fn queue_valid<C>(h: HeapView<C>, q: Seq<Request>) -> bool {
    forall|i: int| 0 <= i < q.len() ==> (#[trigger] q[i]).valid(h)
}

/// Whether every handle in `queue` designates a request of `heap`.
pub fn queue_is_valid<C>(heap: &NgxHeap<C>, queue: &VecDeque<Request>) -> (b: bool)
    ensures
        b == queue_valid(heap@, queue@),
{
    let n = queue.len();
    let mut i: usize = 0;
    while i < n
        invariant
            n == queue@.len(),
            i <= n,
            forall|j: int| 0 <= j < i ==> (#[trigger] queue@[j]).valid(heap@),
        decreases n - i,
    {
        let r = queue[i];
        if !(r.request < heap.requests.len() && r.module.ctx_index < heap.n_modules) {
            assert(!queue@[i as int].valid(heap@));
            return false;
        }
        i += 1;
    }
    true
}

/// The heap after one step on queue `q`.
pub open spec fn finish_heap<C>(h: HeapView<C>, q: Seq<Request>) -> HeapView<C> {
    if q.len() == 0 {
        h
    } else {
        q[0].dec_blocked_heap(h)
    }
}

/// The outcome of one step on queue `q`.
pub open spec fn finish_outcome<C>(h: HeapView<C>, q: Seq<Request>) -> Finished {
    if q.len() == 0 {
        Finished::QueueEmpty
    } else if h.requests[q[0].request as int].pool is Some {
        Finished::Resume(q[0])
    } else {
        Finished::PoolGone(q[0])
    }
}

/// The queue after one step.
pub open spec fn finish_queue(q: Seq<Request>) -> Seq<Request> {
    if q.len() == 0 {
        q
    } else {
        q.drop_first()
    }
}

/// Takes the oldest request off the finished queue, releases its `blocked`
/// count, and says whether nginx is to resume it.
pub fn finish_step<C>(heap: &mut NgxHeap<C>, queue: &mut VecDeque<Request>) -> (f: Finished)
    requires
        old(heap)@.wf(),
        queue_valid(old(heap)@, old(queue)@),
    ensures
        f == finish_outcome(old(heap)@, old(queue)@),
        final(heap)@ == finish_heap(old(heap)@, old(queue)@),
        final(queue)@ == finish_queue(old(queue)@),
        final(heap)@.wf(),
        queue_valid(final(heap)@, final(queue)@),
{
    let ghost q = queue@;
    match queue.pop_front() {
        None => Finished::QueueEmpty,
        Some(mut r) => {
            assert(r == q[0]);
            r.dec_blocked(heap);
            assert(queue@ =~= q.drop_first());
            assert(heap@.requests[r.request as int].pool == old(heap)@.requests[r.request as int].pool);
            assert forall|i: int| 0 <= i < queue@.len() implies (#[trigger] queue@[i]).valid(heap@) by {
                assert(q[i + 1].valid(old(heap)@));
            }
            if heap.requests[r.request].pool.is_some() {
                Finished::Resume(r)
            } else {
                Finished::PoolGone(r)
            }
        },
    }
}

} // verus!
