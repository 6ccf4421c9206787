//! Properties that relate several operations of the request layer.
use crate::background::{finish_heap, finish_outcome, finish_queue, queue_valid, Finished};
use crate::memory::{Cleanup, CtxSlot, HeapView, BLOCKED_MODULUS, COUNT_MODULUS};
use crate::request::{lemma_with_cleanup_wf, lemma_with_request_wf, Request};
use crate::memory::RequestView;
use crate::upstream::Upstream;
use std::sync::Arc;
use vstd::prelude::*;

verus! {

/// `dec_blocked` undoes `inc_blocked`, as long as the 8-bit field did not wrap:
/// the heap is back where it was and the count returned is the count before.
pub proof fn lemma_blocked_round_trip<C>(h: HeapView<C>, r: Request)
    requires
        h.wf(),
        r.valid(h),
        h.requests[r.main_in(h) as int].blocked + 1 < BLOCKED_MODULUS,
    ensures
        r.inc_blocked_result(h) == h.requests[r.main_in(h) as int].blocked + 1,
        r.dec_blocked_result(r.inc_blocked_heap(h)) == h.requests[r.main_in(h) as int].blocked,
        r.dec_blocked_heap(r.inc_blocked_heap(h)) == h,
{
    assert(h.request_wf(h.requests[r.request as int]));
    let h1 = r.inc_blocked_heap(h);
    assert(r.main_in(h1) == r.main_in(h));
    let h2 = r.dec_blocked_heap(h1);
    assert(h2.requests =~= h.requests);
}

/// `dec_main_count` undoes `inc_main_count`, as long as the 16-bit field did not wrap.
pub proof fn lemma_main_count_round_trip<C>(h: HeapView<C>, r: Request)
    requires
        h.wf(),
        r.valid(h),
        h.requests[r.main_in(h) as int].count + 1 < COUNT_MODULUS,
    ensures
        r.inc_main_count_result(h) == h.requests[r.main_in(h) as int].count + 1,
        r.dec_main_count_result(r.inc_main_count_heap(h)) == h.requests[r.main_in(h) as int].count,
        r.dec_main_count_heap(r.inc_main_count_heap(h)) == h,
{
    assert(h.request_wf(h.requests[r.request as int]));
    let h1 = r.inc_main_count_heap(h);
    assert(r.main_in(h1) == r.main_in(h));
    let h2 = r.dec_main_count_heap(h1);
    assert(h2.requests =~= h.requests);
}

/// A context that a module stores on a request is what it reads back.
pub proof fn lemma_context_read_after_write<C>(h: HeapView<C>, r: Request, info: Arc<C>)
    requires
        h.wf(),
        r.valid(h),
        r.has_pool(h),
    ensures
        r.context_in(r.set_context_heap(h, info)) == Some(info),
{
    assert(h.request_wf(h.requests[r.request as int]));
}

/// Storing a context leaves the context of every other module and every
/// other request as it was.
pub proof fn lemma_context_other_slots<C>(h: HeapView<C>, r: Request, other: Request, info: Arc<C>)
    requires
        h.wf(),
        r.valid(h),
        r.has_pool(h),
        other.valid(h),
        other.request != r.request || other.module.ctx_index != r.module.ctx_index,
    ensures
        other.context_in(r.set_context_heap(h, info)) == other.context_in(h),
{
    assert(h.request_wf(h.requests[r.request as int]));
}

/// Once `get_or_init_context` has made a context, the request is still one
/// it can be called on, and a second call finds that context.
pub proof fn lemma_init_context_then_found<C>(h: HeapView<C>, r: Request, c: Arc<C>)
    requires
        h.wf(),
        r.valid(h),
        r.has_pool(h),
        r.context_in(h) is None,
    ensures
        r.set_context_heap(h, c).wf(),
        r.valid(r.set_context_heap(h, c)),
        r.has_pool(r.set_context_heap(h, c)),
        r.context_in(r.set_context_heap(h, c)) == Some(c),
{
    assert(h.request_wf(h.requests[r.request as int]));
    let p = h.requests[r.request as int].pool.unwrap();
    let h1 = h.with_ctx(r.request, r.module.ctx_index, Some(c));
    lemma_with_request_wf(h, r.request, h1.requests[r.request as int]);
    let h2 = h1.with_cleanup(p, Cleanup::DropContext(c));
    lemma_with_cleanup_wf(h1, p, Cleanup::DropContext(c));
    lemma_with_cleanup_wf(
        h2,
        p,
        Cleanup::NullSlot(
            CtxSlot { request: r.request, index: r.module.ctx_index },
        ),
    );
}

/// The upstream that `set_upstream` installs is the one `get_upstream` finds,
/// and the upstreams of the other requests stay as they were.
pub proof fn lemma_upstream_set_then_get<C>(h: HeapView<C>, r: Request, u: Upstream, other: Request)
    requires
        h.wf(),
        r.valid(h),
        u.valid(h),
        other.request < h.requests.len(),
        other.request != r.request,
    ensures
        r.upstream_in(h.with_upstream_of(r.request, Some(u.up))) == Some(
            Upstream { up: u.up, module: r.module },
        ),
        other.upstream_in(h.with_upstream_of(r.request, Some(u.up))) == other.upstream_in(h),
        h.with_upstream_of(r.request, Some(u.up)).wf(),
        r.valid(h.with_upstream_of(r.request, Some(u.up))),
{
    assert(h.request_wf(h.requests[r.request as int]));
    lemma_with_request_wf(
        h,
        r.request,
        RequestView { upstream: Some(u.up), ..h.requests[r.request as int] },
    );
}

/// Destroying the pool of a request whose module stored a context runs the
/// two handlers that `set_context` registered, newest first: the slot is
/// emptied before the context is released, and afterwards the module finds
/// no context on the request.
pub proof fn lemma_destroy_pool_clears_context<C>(h: HeapView<C>, r: Request, info: Arc<C>)
    requires
        h.wf(),
        r.valid(h),
        r.has_pool(h),
    ensures
        ({
            let p = h.requests[r.request as int].pool.unwrap();
            let h1 = r.set_context_heap(h, info);
            let cs = h1.pools[p as int];
            &&& cs.len() >= 2
            &&& cs[cs.len() - 1] == Cleanup::<C>::NullSlot(
                CtxSlot { request: r.request, index: r.module.ctx_index },
            )
            &&& cs[cs.len() - 2] == Cleanup::DropContext(info)
            &&& r.context_in(h1.destroy_pool(p)) is None
            &&& h1.destroy_pool(p).pools[p as int].len() == 0
        }),
{
    assert(h.request_wf(h.requests[r.request as int]));
    let p = h.requests[r.request as int].pool.unwrap();
    let h1 = r.set_context_heap(h, info);
    let cs = h1.pools[p as int];
    let slot = CtxSlot { request: r.request, index: r.module.ctx_index };
    assert(p < h.pools.len());
    assert(cs == h.pools[p as int].push(Cleanup::DropContext(info)).push(Cleanup::NullSlot(slot)));
    assert(cs.len() >= 2);
    assert(cs.last() == Cleanup::<C>::NullSlot(slot));
    let h2 = h1.run_cleanup(Cleanup::NullSlot(slot));
    assert(h2 == h1.with_ctx(r.request, r.module.ctx_index, None));
    assert(r.context_in(h2) is None);
    assert(h2.requests.len() == h.requests.len());
    assert(h2.requests[r.request as int].ctx.len() == h.n_modules);
    lemma_cleanups_keep_empty_slot(h2, cs.drop_last(), r);
    assert(h1.run_cleanups(cs) == h2.run_cleanups(cs.drop_last()));
    let h3 = h1.run_cleanups(cs);
    assert(h1.destroy_pool(p).requests == h3.requests);
    lemma_cleanups_keep_pools(h1, cs);
    assert(p < h1.pools.len());
}

/// Running cleanup handlers changes no pool.
proof fn lemma_cleanups_keep_pools<C>(h: HeapView<C>, cs: Seq<Cleanup<C>>)
    ensures
        h.run_cleanups(cs).pools == h.pools,
    decreases cs.len(),
{
    if cs.len() > 0 {
        lemma_cleanups_keep_pools(h.run_cleanup(cs.last()), cs.drop_last());
    }
}

/// Running cleanup handlers never puts a context into an empty slot.
proof fn lemma_cleanups_keep_empty_slot<C>(h: HeapView<C>, cs: Seq<Cleanup<C>>, r: Request)
    requires
        r.request < h.requests.len(),
        r.module.ctx_index < h.requests[r.request as int].ctx.len(),
        r.context_in(h) is None,
    ensures
        r.context_in(h.run_cleanups(cs)) is None,
    decreases cs.len(),
{
    if cs.len() > 0 {
        let h1 = h.run_cleanup(cs.last());
        match cs.last() {
            Cleanup::DropContext(_) => {},
            Cleanup::NullSlot(s) => {
                if s.request < h.requests.len() && s.index < h.requests[s.request as int].ctx.len() {
                    if s.request != r.request {
                        assert(h1.requests[r.request as int] == h.requests[r.request as int]);
                    }
                }
            },
        }
        lemma_cleanups_keep_empty_slot(h1, cs.drop_last(), r);
    }
}

/// A request sent to the background is handed back: once its worker has put
/// it on the (empty) finished queue, the next step takes it off, restores the
/// `blocked` count that `run_in_background` raised, and resumes the request
/// unless its pool is gone.
pub proof fn lemma_background_round_trip<C>(h: HeapView<C>, r: Request)
    requires
        h.wf(),
        r.valid(h),
        h.requests[r.main_in(h) as int].blocked + 1 < BLOCKED_MODULUS,
    ensures
        finish_heap(r.inc_blocked_heap(h), seq![r]) == h,
        finish_queue(seq![r]) == Seq::<Request>::empty(),
        finish_outcome(r.inc_blocked_heap(h), seq![r]) == (if h.requests[r.request as int].pool is Some {
            Finished::Resume(r)
        } else {
            Finished::PoolGone(r)
        }),
{
    lemma_blocked_round_trip(h, r);
    assert(seq![r].drop_first() =~= Seq::<Request>::empty());
    assert(h.request_wf(h.requests[r.request as int]));
}

/// The number of requests in `s` whose main request is `m`.
pub open spec fn pending_for<C>(h: HeapView<C>, s: Seq<Request>, m: usize) -> nat
    decreases s.len(),
{
    if s.len() == 0 {
        0
    } else {
        pending_for(h, s.drop_last(), m) + (if s.last().main_in(h) == m {
            1nat
        } else {
            0nat
        })
    }
}

/// Counting by main request gives the same on two heaps whose requests have the same mains.
proof fn lemma_pending_same_mains<C>(h1: HeapView<C>, h2: HeapView<C>, s: Seq<Request>, m: usize)
    requires
        h1.requests.len() == h2.requests.len(),
        forall|i: int| 0 <= i < h1.requests.len() ==> #[trigger] h1.requests[i].main == h2.requests[i].main,
        queue_valid(h1, s),
    ensures
        pending_for(h1, s, m) == pending_for(h2, s, m),
    decreases s.len(),
{
    if s.len() > 0 {
        assert(s.last() == s[s.len() - 1]);
        assert(s.last().valid(h1));
        assert(h1.requests[s.last().request as int].main == h2.requests[s.last().request as int].main);
        lemma_pending_same_mains(h1, h2, s.drop_last(), m);
    }
}

/// Taking element `k` out of `s` takes it out of the count of its main request.
proof fn lemma_pending_remove<C>(h: HeapView<C>, s: Seq<Request>, k: int, m: usize)
    requires
        0 <= k < s.len(),
    ensures
        pending_for(h, s, m) == pending_for(h, s.remove(k), m) + (if s[k].main_in(h) == m {
            1nat
        } else {
            0nat
        }),
    decreases s.len(),
{
    if k == s.len() - 1 {
        assert(s.remove(k) =~= s.drop_last());
    } else {
        lemma_pending_remove(h, s.drop_last(), k, m);
        assert(s.remove(k).drop_last() =~= s.drop_last().remove(k));
        assert(s.remove(k).last() == s.last());
    }
}

/// `run_in_background` raises the `blocked` count of the request's main
/// request by exactly the job it sends out: for every main request, `blocked`
/// less the number of its requests out in the background is unchanged.
pub proof fn lemma_run_in_background_balance<C>(h: HeapView<C>, r: Request, out: Seq<Request>, m: usize)
    requires
        h.wf(),
        r.valid(h),
        queue_valid(h, out),
        h.requests[r.main_in(h) as int].blocked + 1 < BLOCKED_MODULUS,
        m < h.requests.len(),
    ensures
        r.inc_blocked_heap(h).requests[m as int].blocked - pending_for(r.inc_blocked_heap(h), out.push(r), m)
            == h.requests[m as int].blocked - pending_for(h, out, m),
{
    assert(h.request_wf(h.requests[r.request as int]));
    let h1 = r.inc_blocked_heap(h);
    assert(out.push(r).drop_last() =~= out);
    assert(queue_valid(h1, out.push(r)));
    assert(forall|i: int| 0 <= i < h.requests.len() ==> #[trigger] h.requests[i].main == h1.requests[i].main);
    lemma_pending_same_mains(h, h1, out, m);
}

/// One step of handing back releases the `blocked` count that the request
/// took: if every request out in the background is counted in `blocked`,
/// then for every main request, `blocked` less the number of its requests
/// still out is unchanged by the step.
pub proof fn lemma_finish_step_balance<C>(
    h: HeapView<C>,
    q: Seq<Request>,
    out: Seq<Request>,
    k: int,
    m: usize,
)
    requires
        h.wf(),
        q.len() > 0,
        queue_valid(h, q),
        queue_valid(h, out),
        0 <= k < out.len(),
        out[k] == q[0],
        pending_for(h, out, q[0].main_in(h)) <= h.requests[q[0].main_in(h) as int].blocked,
        m < h.requests.len(),
    ensures
        finish_heap(h, q).requests[m as int].blocked - pending_for(finish_heap(h, q), out.remove(k), m)
            == h.requests[m as int].blocked - pending_for(h, out, m),
{
    let r = q[0];
    assert(r.valid(h));
    assert(h.request_wf(h.requests[r.request as int]));
    lemma_pending_remove(h, out, k, r.main_in(h));
    lemma_pending_remove(h, out, k, m);
    let h2 = finish_heap(h, q);
    assert(forall|i: int| 0 <= i < h.requests.len() ==> #[trigger] h.requests[i].main == h2.requests[i].main);
    assert forall|i: int| 0 <= i < out.remove(k).len() implies (#[trigger] out.remove(k)[i]).valid(h) by {
        if i < k {
            assert(out.remove(k)[i] == out[i]);
        } else {
            assert(out.remove(k)[i] == out[i + 1]);
        }
    }
    lemma_pending_same_mains(h, h2, out.remove(k), m);
}

} // verus!
