//! What each operation does to nginx's memory, field by field: which field
//! of which structure it reads or writes, and that it leaves every other
//! field, structure and table as it was.
use crate::background::{finish_heap, finish_outcome, finish_queue, queue_valid, Finished};
use crate::memory::{Cleanup, CtxSlot, HeapView, NgxUpstream, RequestView};
use crate::request::{lemma_set_context_wf, Request};
use crate::upstream::Upstream;
use std::sync::Arc;
use vstd::prelude::*;

verus! {

/// `h2` differs from `h` at most in request `i`, and there by `rv`.
pub open spec fn only_request_changed<C>(h: HeapView<C>, h2: HeapView<C>, i: int, rv: RequestView<C>) -> bool {
    &&& h2.requests.len() == h.requests.len()
    &&& h2.requests[i] == rv
    &&& forall|j: int| 0 <= j < h.requests.len() && j != i ==> #[trigger] h2.requests[j] == h.requests[j]
    &&& h2.upstreams == h.upstreams
    &&& h2.connections == h.connections
    &&& h2.pools == h.pools
    &&& h2.n_modules == h.n_modules
}

/// The location configuration a handle reads is the handled request's own
/// `loc_conf` slot for the handle's module — for a subrequest too, whatever
/// its main request's configuration.
pub proof fn lemma_loc_conf_is_own_slot<C>(h: HeapView<C>, r: Request)
    requires
        h.wf(),
        r.valid(h),
    ensures
        r.loc_conf_in(h) == h.requests[r.request as int].loc_conf[r.module.ctx_index as int],
{
}

/// `inc_main_count` returns the main request's count plus one and stores
/// that sum modulo 2^16 in the main request's `count`, changing nothing else;
/// `dec_main_count` returns and stores the count less one when it is
/// positive, and changes nothing when it is zero.
pub proof fn lemma_main_count_fields<C>(h: HeapView<C>, r: Request)
    requires
        h.wf(),
        r.valid(h),
    ensures
        ({
            let m = h.requests[r.request as int].main as int;
            let c = h.requests[m].count;
            &&& r.inc_main_count_result(h) == c + 1
            &&& only_request_changed(
                h,
                r.inc_main_count_heap(h),
                m,
                RequestView { count: ((c + 1) % 0x10000) as u32, ..h.requests[m] },
            )
            &&& r.inc_main_count_heap(h).requests[m].count == r.inc_main_count_result(h) % 0x10000
            &&& c > 0 ==> r.dec_main_count_result(h) == c - 1 && only_request_changed(
                h,
                r.dec_main_count_heap(h),
                m,
                RequestView { count: (c - 1) as u32, ..h.requests[m] },
            )
            &&& c == 0 ==> r.dec_main_count_result(h) == 0 && r.dec_main_count_heap(h) == h
        }),
{
    assert(h.request_wf(h.requests[r.request as int]));
}

/// `inc_blocked` returns the main request's `blocked` plus one and stores
/// that sum modulo 2^8, changing nothing else; `dec_blocked` returns and
/// stores `blocked` less one when it is positive, and changes nothing when
/// it is zero.
pub proof fn lemma_blocked_fields<C>(h: HeapView<C>, r: Request)
    requires
        h.wf(),
        r.valid(h),
    ensures
        ({
            let m = h.requests[r.request as int].main as int;
            let b = h.requests[m].blocked;
            &&& r.inc_blocked_result(h) == b + 1
            &&& only_request_changed(
                h,
                r.inc_blocked_heap(h),
                m,
                RequestView { blocked: ((b + 1) % 0x100) as u32, ..h.requests[m] },
            )
            &&& r.inc_blocked_heap(h).requests[m].blocked == r.inc_blocked_result(h) % 0x100
            &&& b > 0 ==> r.dec_blocked_result(h) == b - 1 && only_request_changed(
                h,
                r.dec_blocked_heap(h),
                m,
                RequestView { blocked: (b - 1) as u32, ..h.requests[m] },
            )
            &&& b == 0 ==> r.dec_blocked_result(h) == 0 && r.dec_blocked_heap(h) == h
        }),
{
    assert(h.request_wf(h.requests[r.request as int]));
}

/// The context a handle finds is the handled request's own `ctx` slot for
/// the handle's module.
pub proof fn lemma_context_is_own_slot<C>(h: HeapView<C>, r: Request)
    requires
        h.wf(),
        r.valid(h),
    ensures
        r.context_in(h) == h.requests[r.request as int].ctx[r.module.ctx_index as int],
{
}

/// `set_context` writes `info` into the handle's slot and nothing else of
/// the requests, appends its two handlers to the end of the request's pool's
/// cleanup list, keeping the handlers already there, and leaves every other
/// pool as it was.
pub proof fn lemma_set_context_fields<C>(h: HeapView<C>, r: Request, info: Arc<C>)
    requires
        h.wf(),
        r.valid(h),
        r.has_pool(h),
    ensures
        ({
            let i = r.request as int;
            let p = h.requests[i].pool.unwrap() as int;
            let h1 = r.set_context_heap(h, info);
            &&& h1.requests.len() == h.requests.len()
            &&& h1.requests[i] == RequestView {
                ctx: h.requests[i].ctx.update(r.module.ctx_index as int, Some(info)),
                ..h.requests[i]
            }
            &&& forall|j: int| 0 <= j < h.requests.len() && j != i ==> #[trigger] h1.requests[j] == h.requests[j]
            &&& h1.pools.len() == h.pools.len()
            &&& h1.pools[p] == h.pools[p].push(Cleanup::DropContext(info)).push(
                Cleanup::NullSlot(CtxSlot { request: r.request, index: r.module.ctx_index }),
            )
            &&& forall|q: int| 0 <= q < h.pools.len() && q != p ==> #[trigger] h1.pools[q] == h.pools[q]
            &&& h1.upstreams == h.upstreams
            &&& h1.connections == h.connections
            &&& h1.n_modules == h.n_modules
        }),
{
    assert(h.request_wf(h.requests[r.request as int]));
}

/// Running a list of cleanups that holds a handler nulling the slot of `r`
/// leaves that slot empty, wherever in the list the handler stands.
proof fn lemma_cleanups_null_slot<C>(h: HeapView<C>, cs: Seq<Cleanup<C>>, r: Request, k: int)
    requires
        r.request < h.requests.len(),
        r.module.ctx_index < h.requests[r.request as int].ctx.len(),
        0 <= k < cs.len(),
        cs[k] == Cleanup::<C>::NullSlot(CtxSlot { request: r.request, index: r.module.ctx_index }),
    ensures
        h.run_cleanups(cs).requests[r.request as int].ctx[r.module.ctx_index as int] is None,
        h.run_cleanups(cs).requests.len() == h.requests.len(),
    decreases cs.len(),
{
    let h1 = h.run_cleanup(cs.last());
    assert(h1.requests.len() == h.requests.len());
    assert(h1.requests[r.request as int].ctx.len() == h.requests[r.request as int].ctx.len());
    if k == cs.len() - 1 {
        assert(h1.requests[r.request as int].ctx[r.module.ctx_index as int] is None);
        lemma_cleanups_keep_empty(h1, cs.drop_last(), r);
    } else {
        assert(cs.drop_last()[k] == cs[k]);
        lemma_cleanups_null_slot(h1, cs.drop_last(), r, k);
    }
}

/// Running cleanups never fills an empty slot, nor changes the number of
/// requests or the length of any `ctx` array.
proof fn lemma_cleanups_keep_empty<C>(h: HeapView<C>, cs: Seq<Cleanup<C>>, r: Request)
    requires
        r.request < h.requests.len(),
        r.module.ctx_index < h.requests[r.request as int].ctx.len(),
        h.requests[r.request as int].ctx[r.module.ctx_index as int] is None,
    ensures
        h.run_cleanups(cs).requests[r.request as int].ctx[r.module.ctx_index as int] is None,
        h.run_cleanups(cs).requests.len() == h.requests.len(),
    decreases cs.len(),
{
    if cs.len() > 0 {
        let h1 = h.run_cleanup(cs.last());
        assert(h1.requests.len() == h.requests.len());
        assert(h1.requests[r.request as int].ctx.len() == h.requests[r.request as int].ctx.len());
        assert(h1.requests[r.request as int].ctx[r.module.ctx_index as int] is None);
        lemma_cleanups_keep_empty(h1, cs.drop_last(), r);
    }
}

/// Two modules store contexts, one after the other, on requests that share a
/// pool; destroying that pool leaves neither context in place.
pub proof fn lemma_destroy_pool_clears_both_contexts<C>(
    h: HeapView<C>,
    r1: Request,
    a: Arc<C>,
    r2: Request,
    b: Arc<C>,
)
    requires
        h.wf(),
        r1.valid(h),
        r1.has_pool(h),
        r2.valid(h),
        h.requests[r2.request as int].pool == h.requests[r1.request as int].pool,
    ensures
        ({
            let p = h.requests[r1.request as int].pool.unwrap();
            let h2 = r2.set_context_heap(r1.set_context_heap(h, a), b);
            &&& h2.destroy_pool(p).requests[r1.request as int].ctx[r1.module.ctx_index as int] is None
            &&& h2.destroy_pool(p).requests[r2.request as int].ctx[r2.module.ctx_index as int] is None
        }),
{
    let p = h.requests[r1.request as int].pool.unwrap();
    let h1 = r1.set_context_heap(h, a);
    lemma_set_context_fields(h, r1, a);
    lemma_set_context_wf(h, r1, a);
    assert(r2.valid(h1));
    assert(h1.requests[r2.request as int].pool == h.requests[r2.request as int].pool);
    assert(r2.has_pool(h1));
    lemma_set_context_fields(h1, r2, b);
    let h2 = r2.set_context_heap(h1, b);
    let cs = h2.pools[p as int];
    let s1 = Cleanup::<C>::NullSlot(CtxSlot { request: r1.request, index: r1.module.ctx_index });
    let s2 = Cleanup::<C>::NullSlot(CtxSlot { request: r2.request, index: r2.module.ctx_index });
    let n0: int = h.pools[p as int].len() as int;
    assert(cs[n0 + 1] == s1);
    assert(cs[n0 + 3] == s2);
    assert(h.request_wf(h.requests[r1.request as int]));
    assert(h.request_wf(h.requests[r2.request as int]));
    assert(h2.requests[r1.request as int].ctx.len() == h.n_modules);
    assert(h2.requests[r2.request as int].ctx.len() == h.n_modules);
    lemma_cleanups_null_slot(h2, cs, r1, n0 + 1);
    lemma_cleanups_null_slot(h2, cs, r2, n0 + 3);
}

/// A handle's upstream is the handled request's own `upstream` pointer,
/// with the handle's module.
pub proof fn lemma_upstream_is_own_pointer<C>(h: HeapView<C>, r: Request)
    requires
        r.request < h.requests.len(),
    ensures
        (r.upstream_in(h) is Some) == (h.requests[r.request as int].upstream is Some),
        r.upstream_in(h) is Some ==> r.upstream_in(h).unwrap().up == h.requests[r.request as int].upstream.unwrap()
            && r.upstream_in(h).unwrap().module == r.module,
{
}

/// Writing a request or an upstream changes that one structure and no other.
pub proof fn lemma_single_writes<C>(h: HeapView<C>, i: usize, rv: RequestView<C>, u: usize, uv: NgxUpstream)
    requires
        i < h.requests.len(),
        u < h.upstreams.len(),
    ensures
        only_request_changed(h, h.with_request(i, rv), i as int, rv),
        h.with_upstream(u, uv).upstreams.len() == h.upstreams.len(),
        h.with_upstream(u, uv).upstreams[u as int] == uv,
        forall|j: int| 0 <= j < h.upstreams.len() && j != u ==> #[trigger] h.with_upstream(u, uv).upstreams[j]
            == h.upstreams[j],
        h.with_upstream(u, uv).requests == h.requests,
        h.with_upstream(u, uv).pools == h.pools,
        h.with_upstream(u, uv).connections == h.connections,
        h.with_upstream(u, uv).n_modules == h.n_modules,
{
}

/// A handle's main request is the one the handled request's `main` pointer
/// designates; a main request is its own main request.
pub proof fn lemma_main_is_own_pointer<C>(h: HeapView<C>, r: Request)
    requires
        r.request < h.requests.len(),
    ensures
        r.main_in(h) == h.requests[r.request as int].main,
        (r.main_in(h) == r.request) == (h.requests[r.request as int].main == r.request),
{
}

/// Writing one context slot changes that slot of that request and nothing
/// else, as `null_ptr` does with `None`.
pub proof fn lemma_ctx_write<C>(h: HeapView<C>, i: usize, index: usize, v: Option<Arc<C>>)
    requires
        i < h.requests.len(),
        index < h.requests[i as int].ctx.len(),
    ensures
        only_request_changed(
            h,
            h.with_ctx(i, index, v),
            i as int,
            RequestView { ctx: h.requests[i as int].ctx.update(index as int, v), ..h.requests[i as int] },
        ),
        h.with_ctx(i, index, v).requests[i as int].ctx[index as int] == v,
        forall|k: int| 0 <= k < h.requests[i as int].ctx.len() && k != index ==> #[trigger] h.with_ctx(
            i,
            index,
            v,
        ).requests[i as int].ctx[k] == h.requests[i as int].ctx[k],
{
}

/// A freshly allocated upstream has no callback, no schema, and every
/// address and bit field zero.
pub proof fn lemma_zeroed_upstream()
    ensures
        ({
            let u = crate::memory::zeroed_upstream();
            &&& u.create_request is None && u.reinit_request is None && u.process_header is None
            &&& u.abort_request is None && u.finalize_request is None
            &&& u.read_event_handler is None && u.write_event_handler is None
            &&& u.input_filter is None && u.input_filter_init is None
            &&& u.output_tag == 0 && u.peer_log == 0 && u.peer_log_error == 0 && u.conf == 0
            &&& u.schema is None
        }),
{
}

/// An upstream handle designates the upstream at its own address.
pub proof fn lemma_upstream_target<C>(h: HeapView<C>, up: Upstream)
    ensures
        up.target(h) == h.upstreams[up.up as int],
{
}

/// One step takes exactly the front request off the finished queue and keeps
/// the rest in order; it releases one `blocked` count of that request's main
/// request (when there is one to release), changing nothing else, and
/// resumes the request exactly when the request still has a pool. On an
/// empty queue it changes nothing.
pub proof fn lemma_finish_step_fields<C>(h: HeapView<C>, q: Seq<Request>)
    requires
        h.wf(),
        queue_valid(h, q),
    ensures
        q.len() == 0 ==> finish_queue(q) == q && finish_heap(h, q) == h && finish_outcome(h, q)
            == Finished::QueueEmpty,
        q.len() > 0 ==> ({
            let r = q[0];
            let m = h.requests[r.request as int].main as int;
            let b = h.requests[m].blocked;
            &&& finish_queue(q).len() == q.len() - 1
            &&& forall|k: int| 0 <= k < q.len() - 1 ==> #[trigger] finish_queue(q)[k] == q[k + 1]
            &&& b > 0 ==> only_request_changed(
                h,
                finish_heap(h, q),
                m,
                RequestView { blocked: (b - 1) as u32, ..h.requests[m] },
            )
            &&& b == 0 ==> finish_heap(h, q) == h
            &&& finish_outcome(h, q) == (if h.requests[r.request as int].pool is Some {
                Finished::Resume(r)
            } else {
                Finished::PoolGone(r)
            })
        }),
{
    if q.len() > 0 {
        assert(q[0].valid(h));
        assert(h.request_wf(h.requests[q[0].request as int]));
    }
}

/// The finished queue after `k` steps.
pub open spec fn queue_after_steps(q: Seq<Request>, k: nat) -> Seq<Request>
    decreases k,
{
    if k == 0 {
        q
    } else {
        finish_queue(queue_after_steps(q, (k - 1) as nat))
    }
}

/// Steps hand the queued requests back oldest first and drop none: after `k`
/// steps the queue holds exactly the requests from position `k` on, so the
/// request at position `k` is the one the next step takes, and after as many
/// steps as there were requests the queue is empty.
pub proof fn lemma_queue_drained_in_order(q: Seq<Request>, k: nat)
    requires
        k <= q.len(),
    ensures
        queue_after_steps(q, k) == q.subrange(k as int, q.len() as int),
        k < q.len() ==> queue_after_steps(q, k)[0] == q[k as int],
        queue_after_steps(q, q.len()).len() == 0,
    decreases k,
{
    if k > 0 {
        lemma_queue_drained_in_order(q, (k - 1) as nat);
        let prev = queue_after_steps(q, (k - 1) as nat);
        assert(prev.len() > 0);
        assert(finish_queue(prev) =~= q.subrange(k as int, q.len() as int));
    }
    lemma_queue_len_drained(q, q.len());
}

/// After as many steps as there were requests the queue is empty.
proof fn lemma_queue_len_drained(q: Seq<Request>, k: nat)
    requires
        k <= q.len(),
    ensures
        queue_after_steps(q, k).len() == q.len() - k,
    decreases k,
{
    if k > 0 {
        lemma_queue_len_drained(q, (k - 1) as nat);
    }
}

} // verus!
