//! The request handle that nginx passes to a module's handlers.
use crate::memory::{
    zeroed_upstream, Cleanup, CtxSlot, HeapView, NgxHeap, NgxUpstream, RequestView, BLOCKED_MODULUS,
    COUNT_MODULUS, LOG_ERROR_MODULUS,
};
use crate::status::{HTTPStatus, Status, NGX_AGAIN, NGX_ERROR_ERR, NGX_OK};
use crate::upstream::Upstream;
use std::sync::Arc;
use vstd::prelude::*;

verus! {

/// What the request layer reads of an `ngx_module_t`.
#[derive(Clone, Copy, Debug, PartialEq, Eq, Structural)]
pub struct Module {
    /// `ctx_index`: the module's slot in every `ctx` and `loc_conf` array.
    pub ctx_index: usize,
}

/// An nginx memory pool, by address; `None` is the null pool.
#[derive(Clone, Copy, Debug, PartialEq, Eq, Structural)]
pub struct Pool {
    pub pool: Option<usize>,
}

impl Pool {
    /// Wraps the pool at `pool`.
    pub fn from_ngx_pool(pool: Option<usize>) -> (p: Pool)
        ensures
            p.pool == pool,
    {
        Pool { pool }
    }
}

/// A request handle: the request, the module that handles it, and the pool
/// the request had when the handle was made.
#[derive(Clone, Copy, Debug)]
pub struct Request {
    pub request: usize,
    pub module: Module,
    pub the_pool: Pool,
}

/// The stored value of a 16-bit counter field after writing `v`.
pub open spec fn count_field(v: int) -> u32 {
    (v % (COUNT_MODULUS as int)) as u32
}

/// The stored value of an 8-bit counter field after writing `v`.
pub open spec fn blocked_field(v: int) -> u32 {
    (v % (BLOCKED_MODULUS as int)) as u32
}

impl Request {
    /// The handle designates a request of `h`, and its module has a slot there.
    pub open spec fn valid<C>(self, h: HeapView<C>) -> bool {
        &&& self.request < h.requests.len()
        &&& self.module.ctx_index < h.n_modules
    }

    /// `r->main` of the handled request.
    pub open spec fn main_in<C>(self, h: HeapView<C>) -> usize {
        h.main_of(self.request)
    }

    /// The counter value that `inc_main_count` returns.
    pub open spec fn inc_main_count_result<C>(self, h: HeapView<C>) -> u32 {
        (h.requests[self.main_in(h) as int].count + 1) as u32
    }

    /// The heap after `inc_main_count`.
    pub open spec fn inc_main_count_heap<C>(self, h: HeapView<C>) -> HeapView<C> {
        h.with_count(self.main_in(h), count_field(h.requests[self.main_in(h) as int].count + 1))
    }

    /// The counter value that `dec_main_count` returns.
    pub open spec fn dec_main_count_result<C>(self, h: HeapView<C>) -> u32 {
        let c = h.requests[self.main_in(h) as int].count;
        if c > 0 { (c - 1) as u32 } else { c }
    }

    /// The heap after `dec_main_count`.
    pub open spec fn dec_main_count_heap<C>(self, h: HeapView<C>) -> HeapView<C> {
        if h.requests[self.main_in(h) as int].count > 0 {
            h.with_count(self.main_in(h), self.dec_main_count_result(h))
        } else {
            h
        }
    }

    /// The counter value that `inc_blocked` returns.
    pub open spec fn inc_blocked_result<C>(self, h: HeapView<C>) -> u32 {
        (h.requests[self.main_in(h) as int].blocked + 1) as u32
    }

    /// The heap after `inc_blocked`.
    pub open spec fn inc_blocked_heap<C>(self, h: HeapView<C>) -> HeapView<C> {
        h.with_blocked(self.main_in(h), blocked_field(h.requests[self.main_in(h) as int].blocked + 1))
    }

    /// The counter value that `dec_blocked` returns.
    pub open spec fn dec_blocked_result<C>(self, h: HeapView<C>) -> u32 {
        let c = h.requests[self.main_in(h) as int].blocked;
        if c > 0 { (c - 1) as u32 } else { c }
    }

    /// The heap after `dec_blocked`.
    pub open spec fn dec_blocked_heap<C>(self, h: HeapView<C>) -> HeapView<C> {
        if h.requests[self.main_in(h) as int].blocked > 0 {
            h.with_blocked(self.main_in(h), self.dec_blocked_result(h))
        } else {
            h
        }
    }

    /// The context that this handle's module has stored on the request.
    pub open spec fn context_in<C>(self, h: HeapView<C>) -> Option<Arc<C>> {
        h.requests[self.request as int].ctx[self.module.ctx_index as int]
    }

    /// The heap after `set_context(info)`: the slot holds `info`, and the
    /// request's pool has a handler that frees it and, after that, one that
    /// nulls the slot.
    pub open spec fn set_context_heap<C>(self, h: HeapView<C>, info: Arc<C>) -> HeapView<C> {
        let p = h.requests[self.request as int].pool.unwrap();
        h.with_ctx(self.request, self.module.ctx_index, Some(info))
            .with_cleanup(p, Cleanup::DropContext(info))
            .with_cleanup(
                p,
                Cleanup::NullSlot(CtxSlot { request: self.request, index: self.module.ctx_index }),
            )
    }

    /// `get_or_init_context` can store a context: the request has a pool.
    pub open spec fn has_pool<C>(self, h: HeapView<C>) -> bool {
        h.requests[self.request as int].pool is Some
    }

    /// The request's upstream, as a handle made by this handle's module.
    pub open spec fn upstream_in<C>(self, h: HeapView<C>) -> Option<Upstream> {
        match h.requests[self.request as int].upstream {
            None => None,
            Some(a) => Some(Upstream { up: a, module: self.module }),
        }
    }

    /// `r->loc_conf[module.ctx_index]`.
    pub open spec fn loc_conf_in<C>(self, h: HeapView<C>) -> usize {
        h.requests[self.request as int].loc_conf[self.module.ctx_index as int]
    }

    /// Wraps the request at `r`, handled by `the_mod`.
    pub fn from_ngx_http_request<C>(heap: &NgxHeap<C>, r: usize, the_mod: Module) -> (req: Request)
        requires
            r < heap@.requests.len(),
        ensures
            req.request == r,
            req.module == the_mod,
            req.the_pool.pool == heap@.requests[r as int].pool,
    {
        Request {
            request: r,
            module: the_mod,
            the_pool: Pool::from_ngx_pool(heap.requests[r].pool),
        }
    }

    /// The address of the handled request.
    pub fn get_request(&self) -> (r: usize)
        ensures
            r == self.request,
    {
        self.request
    }

    /// The pool of this handle.
    pub fn pool(&mut self) -> (p: &mut Pool)
        ensures
            *p == old(self).the_pool,
            final(self).the_pool == *final(p),
            final(self).request == old(self).request,
            final(self).module == old(self).module,
    {
        &mut self.the_pool
    }

    /// `r->main->count`.
    pub fn get_main_count<C>(&self, heap: &NgxHeap<C>) -> (c: u32)
        requires
            heap@.wf(),
            self.valid(heap@),
        ensures
            c == heap@.requests[self.main_in(heap@) as int].count,
    {
        let main = heap.requests[self.request].main;
        proof {
            assert(heap@.request_wf(heap@.requests[self.request as int]));
        }
        heap.requests[main].count
    }

    /// Adds one to `r->main->count` and returns the sum; the 16-bit field keeps it modulo 2^16.
    pub fn inc_main_count<C>(&mut self, heap: &mut NgxHeap<C>) -> (c: u32)
        requires
            old(heap)@.wf(),
            old(self).valid(old(heap)@),
        ensures
            *final(self) == *old(self),
            c == old(self).inc_main_count_result(old(heap)@),
            final(heap)@ == old(self).inc_main_count_heap(old(heap)@),
            final(heap)@.wf(),
    {
        let ghost h = heap@;
        let main = heap.requests[self.request].main;
        proof {
            assert(h.request_wf(h.requests[self.request as int]));
            assert(h.request_wf(h.requests[main as int]));
        }
        let mut cc = heap.requests[main].count;
        cc += 1;
        heap.requests[main].count = cc % COUNT_MODULUS;
        proof {
            assert(heap@.requests =~= h.with_count(main, count_field(cc as int)).requests);
            lemma_with_request_wf(h, main, heap@.requests[main as int]);
        }
        cc
    }

    /// Takes one from `r->main->count` unless it is zero, and returns the result.
    pub fn dec_main_count<C>(&mut self, heap: &mut NgxHeap<C>) -> (c: u32)
        requires
            old(heap)@.wf(),
            old(self).valid(old(heap)@),
        ensures
            *final(self) == *old(self),
            c == old(self).dec_main_count_result(old(heap)@),
            final(heap)@ == old(self).dec_main_count_heap(old(heap)@),
            final(heap)@.wf(),
    {
        let ghost h = heap@;
        let main = heap.requests[self.request].main;
        proof {
            assert(h.request_wf(h.requests[self.request as int]));
            assert(h.request_wf(h.requests[main as int]));
        }
        let mut cc = heap.requests[main].count;
        if cc > 0 {
            cc -= 1;
            heap.requests[main].count = cc;
            proof {
                assert(heap@.requests =~= h.with_count(main, cc).requests);
                lemma_with_request_wf(h, main, heap@.requests[main as int]);
            }
        } else {
            proof {
                assert(heap@.requests =~= h.requests);
            }
        }
        cc
    }

    /// `r->main->blocked`.
    pub fn get_blocked_count<C>(&self, heap: &NgxHeap<C>) -> (c: u32)
        requires
            heap@.wf(),
            self.valid(heap@),
        ensures
            c == heap@.requests[self.main_in(heap@) as int].blocked,
    {
        let main = heap.requests[self.request].main;
        proof {
            assert(heap@.request_wf(heap@.requests[self.request as int]));
        }
        heap.requests[main].blocked
    }

    /// Adds one to `r->main->blocked` and returns the sum; the 8-bit field keeps it modulo 2^8.
    pub fn inc_blocked<C>(&mut self, heap: &mut NgxHeap<C>) -> (c: u32)
        requires
            old(heap)@.wf(),
            old(self).valid(old(heap)@),
        ensures
            *final(self) == *old(self),
            c == old(self).inc_blocked_result(old(heap)@),
            final(heap)@ == old(self).inc_blocked_heap(old(heap)@),
            final(heap)@.wf(),
    {
        let ghost h = heap@;
        let main = heap.requests[self.request].main;
        proof {
            assert(h.request_wf(h.requests[self.request as int]));
            assert(h.request_wf(h.requests[main as int]));
        }
        let mut cc = heap.requests[main].blocked;
        cc += 1;
        heap.requests[main].blocked = cc % BLOCKED_MODULUS;
        proof {
            assert(heap@.requests =~= h.with_blocked(main, blocked_field(cc as int)).requests);
            lemma_with_request_wf(h, main, heap@.requests[main as int]);
        }
        cc
    }

    /// Takes one from `r->main->blocked` unless it is zero, and returns the result.
    pub fn dec_blocked<C>(&mut self, heap: &mut NgxHeap<C>) -> (c: u32)
        requires
            old(heap)@.wf(),
            old(self).valid(old(heap)@),
        ensures
            *final(self) == *old(self),
            c == old(self).dec_blocked_result(old(heap)@),
            final(heap)@ == old(self).dec_blocked_heap(old(heap)@),
            final(heap)@.wf(),
    {
        let ghost h = heap@;
        let main = heap.requests[self.request].main;
        proof {
            assert(h.request_wf(h.requests[self.request as int]));
            assert(h.request_wf(h.requests[main as int]));
        }
        let mut cc = heap.requests[main].blocked;
        if cc > 0 {
            cc -= 1;
            heap.requests[main].blocked = cc;
            proof {
                assert(heap@.requests =~= h.with_blocked(main, cc).requests);
                lemma_with_request_wf(h, main, heap@.requests[main as int]);
            }
        } else {
            proof {
                assert(heap@.requests =~= h.requests);
            }
        }
        cc
    }
    /// `r->loc_conf[module.ctx_index]`: the location configuration of this handle's module.
    pub fn get_loc_conf<C>(&mut self, heap: &NgxHeap<C>) -> (conf: usize)
        requires
            heap@.wf(),
            old(self).valid(heap@),
        ensures
            *final(self) == *old(self),
            conf == old(self).loc_conf_in(heap@),
    {
        ngx_http_get_module_loc_conf(heap, self.request, self.module)
    }

    /// `r->loc_conf[module.ctx_index]` for a module given by the caller.
    pub fn get_module_loc_conf<C>(&self, heap: &NgxHeap<C>, module: &Module) -> (conf: usize)
        requires
            heap@.wf(),
            self.request < heap@.requests.len(),
            module.ctx_index < heap@.n_modules,
        ensures
            conf == heap@.requests[self.request as int].loc_conf[module.ctx_index as int],
    {
        ngx_http_get_module_loc_conf(heap, self.request, *module)
    }

    /// Allocates a zeroed upstream for the request, logging to the request's
    /// connection log at `NGX_ERROR_ERR`, configured with this module's
    /// location configuration. The request's own `upstream` is left as it was.
    ///
    /// In nginx the upstream is `ngx_pcalloc`ed from the request's pool, and a
    /// failed allocation (or a null pool) is written through as a null
    /// pointer; the model's upstream table always has room, so here the
    /// allocation always succeeds.
    pub fn create_upstream<C>(&mut self, heap: &mut NgxHeap<C>) -> (u: Upstream)
        requires
            old(heap)@.wf(),
            old(self).valid(old(heap)@),
        ensures
            *final(self) == *old(self),
            u.up == old(heap)@.upstreams.len(),
            u.module == old(self).module,
            final(heap)@ == (HeapView {
                upstreams: old(heap)@.upstreams.push(
                    NgxUpstream {
                        peer_log: old(heap)@.connections[old(heap)@.requests[old(self).request as int].connection as int].log,
                        peer_log_error: NGX_ERROR_ERR,
                        conf: old(self).loc_conf_in(old(heap)@),
                        ..zeroed_upstream()
                    },
                ),
                ..old(heap)@
            }),
            final(heap)@.wf(),
    {
        let ghost h = heap@;
        proof {
            assert(h.request_wf(h.requests[self.request as int]));
        }
        let conn = heap.requests[self.request].connection;
        let up = heap.upstreams.len();
        let mut fresh = NgxUpstream::zeroed();
        fresh.peer_log = heap.connections[conn].log;
        fresh.peer_log_error = NGX_ERROR_ERR % LOG_ERROR_MODULUS;
        heap.upstreams.push(fresh);
        proof {
            assert(heap@.requests =~= h.requests);
            assert(heap@.pools =~= h.pools);
            let h1 = heap@;
            assert forall|i: int| 0 <= i < h1.requests.len() implies h1.request_wf(#[trigger] h1.requests[i]) by {
                assert(h.request_wf(h.requests[i]));
            }
            assert forall|j: int| 0 <= j < h1.upstreams.len() implies #[trigger] h1.upstreams[j].peer_log_error
                < LOG_ERROR_MODULUS by {
                if j < h.upstreams.len() {
                    assert(h.upstreams[j].peer_log_error < LOG_ERROR_MODULUS);
                }
            }
        }
        let mut ret = Upstream { up, module: self.module };
        let plcf = self.get_loc_conf(heap);
        ret.set_conf(heap, plcf);
        proof {
            assert(heap@.upstreams =~= h.upstreams.push(
                NgxUpstream {
                    peer_log: h.connections[h.requests[self.request as int].connection as int].log,
                    peer_log_error: NGX_ERROR_ERR,
                    conf: self.loc_conf_in(h),
                    ..zeroed_upstream()
                },
            ));
        }
        ret
    }

    /// The request's upstream, if it has one.
    pub fn get_upstream<C>(&mut self, heap: &NgxHeap<C>) -> (u: Option<Upstream>)
        requires
            old(self).request < heap@.requests.len(),
        ensures
            *final(self) == *old(self),
            u == old(self).upstream_in(heap@),
    {
        match heap.requests[self.request].upstream {
            None => None,
            Some(a) => Some(Upstream { up: a, module: self.module }),
        }
    }

    /// Whether the request is its own main request.
    pub fn is_main<C>(&self, heap: &NgxHeap<C>) -> (b: bool)
        requires
            self.request < heap@.requests.len(),
        ensures
            b == (self.main_in(heap@) == self.request),
    {
        self.request == heap.requests[self.request].main
    }

    /// Makes `upstream` the request's upstream.
    pub fn set_upstream<C>(&mut self, heap: &mut NgxHeap<C>, upstream: &Upstream)
        requires
            old(heap)@.wf(),
            old(self).valid(old(heap)@),
            upstream.valid(old(heap)@),
        ensures
            *final(self) == *old(self),
            final(heap)@ == old(heap)@.with_upstream_of(old(self).request, Some(upstream.up)),
            final(heap)@.wf(),
    {
        let ghost h = heap@;
        proof {
            assert(h.request_wf(h.requests[self.request as int]));
        }
        heap.requests[self.request].upstream = Some(upstream.up);
        proof {
            assert(heap@.requests =~= h.with_upstream_of(self.request, Some(upstream.up)).requests);
            lemma_with_request_wf(h, self.request, heap@.requests[self.request as int]);
        }
    }

    /// `r->connection`.
    pub fn connection<C>(&self, heap: &NgxHeap<C>) -> (c: usize)
        requires
            self.request < heap@.requests.len(),
        ensures
            c == heap@.requests[self.request as int].connection,
    {
        heap.requests[self.request].connection
    }

    /// The value of a complex value, given what `ngx_http_complex_value`
    /// returned for this request: the string when the call succeeded.
    pub fn get_complex_value(&self, rc: isize, value: Vec<u8>) -> (v: Option<Vec<u8>>)
        ensures
            rc != NGX_OK ==> v is None,
            rc == NGX_OK ==> v == Some(value),
    {
        if rc != NGX_OK {
            return None;
        }
        Some(value)
    }

    /// The value of the request's `User-Agent` header.
    pub fn user_agent<'a, C>(&self, heap: &'a NgxHeap<C>) -> (ua: &'a [u8])
        requires
            self.request < heap@.requests.len(),
            heap@.requests[self.request as int].user_agent is Some,
        ensures
            Some(ua@) == heap@.requests[self.request as int].user_agent,
    {
        heap.requests[self.request].user_agent.as_ref().unwrap().as_slice()
    }

    /// Sets `r->headers_out.status`.
    pub fn set_status<C>(&mut self, heap: &mut NgxHeap<C>, status: HTTPStatus)
        requires
            old(heap)@.wf(),
            old(self).valid(old(heap)@),
        ensures
            *final(self) == *old(self),
            final(heap)@ == old(heap)@.with_request(
                old(self).request,
                RequestView { status: status.0, ..old(heap)@.requests[old(self).request as int] },
            ),
            final(heap)@.wf(),
    {
        let ghost h = heap@;
        proof {
            assert(h.request_wf(h.requests[self.request as int]));
        }
        heap.requests[self.request].status = status.0;
        proof {
            assert(heap@.requests =~= h.with_request(
                self.request,
                RequestView { status: status.0, ..h.requests[self.request as int] },
            ).requests);
            lemma_with_request_wf(h, self.request, heap@.requests[self.request as int]);
        }
    }

    /// Sets `r->headers_out.content_length_n` to `n` as an `off_t`.
    pub fn set_content_length_n<C>(&mut self, heap: &mut NgxHeap<C>, n: usize)
        requires
            old(heap)@.wf(),
            old(self).valid(old(heap)@),
        ensures
            *final(self) == *old(self),
            final(heap)@ == old(heap)@.with_request(
                old(self).request,
                RequestView { content_length_n: n as i64, ..old(heap)@.requests[old(self).request as int] },
            ),
            final(heap)@.wf(),
    {
        let ghost h = heap@;
        proof {
            assert(h.request_wf(h.requests[self.request as int]));
        }
        heap.requests[self.request].content_length_n = n as i64;
        proof {
            assert(heap@.requests =~= h.with_request(
                self.request,
                RequestView { content_length_n: n as i64, ..h.requests[self.request as int] },
            ).requests);
            lemma_with_request_wf(h, self.request, heap@.requests[self.request as int]);
        }
    }

    /// Whether `r->header_only` is set.
    pub fn set_header_only<C>(&self, heap: &NgxHeap<C>) -> (b: bool)
        requires
            self.request < heap@.requests.len(),
        ensures
            b == heap@.requests[self.request as int].header_only,
    {
        heap.requests[self.request].header_only
    }

    /// The context that this handle's module stored on the request, if any.
    pub fn get_context<C>(&self, heap: &NgxHeap<C>) -> (c: Option<Arc<C>>)
        requires
            heap@.wf(),
            self.valid(heap@),
        ensures
            c == self.context_in(heap@),
    {
        proof {
            assert(heap@.request_wf(heap@.requests[self.request as int]));
        }
        let index = self.module.ctx_index;
        match &heap.requests[self.request].ctx[index] {
            None => None,
            Some(item) => Some(item.clone()),
        }
    }

    /// Stores `info` as this module's context on the request, and registers
    /// on the request's pool a handler that frees it and one that nulls the slot.
    ///
    /// In nginx each handler comes from `ngx_pool_cleanup_add`, whose null
    /// result on a failed allocation is written through; the model's pools
    /// always have room, so here both handlers are always registered.
    pub fn set_context<C>(&mut self, heap: &mut NgxHeap<C>, info: &Arc<C>)
        requires
            old(heap)@.wf(),
            old(self).valid(old(heap)@),
            old(self).has_pool(old(heap)@),
        ensures
            *final(self) == *old(self),
            final(heap)@ == old(self).set_context_heap(old(heap)@, *info),
            final(heap)@.wf(),
    {
        let ghost h = heap@;
        proof {
            assert(h.request_wf(h.requests[self.request as int]));
        }
        let index = self.module.ctx_index;
        let cloned_info = info.clone();
        heap.requests[self.request].ctx.set(index, Some(cloned_info.clone()));
        let ghost h1 = heap@;
        proof {
            assert(h1.requests =~= h.with_ctx(self.request, index, Some(*info)).requests);
            lemma_with_request_wf(h, self.request, h1.requests[self.request as int]);
        }
        let p = heap.requests[self.request].pool.unwrap();
        heap.pools[p].cleanups.push(Cleanup::DropContext(cloned_info));
        let ghost h2 = heap@;
        proof {
            assert(h2.pools =~= h1.with_cleanup(p, Cleanup::DropContext(*info)).pools);
            assert(h2.requests =~= h1.requests);
            lemma_with_cleanup_wf(h1, p, Cleanup::DropContext(*info));
        }
        heap.pools[p].cleanups.push(Cleanup::NullSlot(CtxSlot { request: self.request, index }));
        proof {
            let c = Cleanup::NullSlot(CtxSlot { request: self.request, index });
            assert(heap@.pools =~= h2.with_cleanup(p, c).pools);
            assert(heap@.requests =~= h2.requests);
            lemma_with_cleanup_wf(h2, p, c);
        }
    }

    /// The context of this handle's module on the request: the stored one
    /// with `false` if there is one, else a new one made by `init_func`,
    /// stored with `set_context`, with `true`.
    pub fn get_or_init_context<C, F: Fn() -> C>(&mut self, heap: &mut NgxHeap<C>, init_func: F) -> (res: (
        Arc<C>,
        bool,
    ))
        requires
            old(heap)@.wf(),
            old(self).valid(old(heap)@),
            old(self).context_in(old(heap)@) is None ==> old(self).has_pool(old(heap)@) && call_requires(
                init_func,
                (),
            ),
        ensures
            *final(self) == *old(self),
            final(heap)@.wf(),
            res.1 == (old(self).context_in(old(heap)@) is None),
            match old(self).context_in(old(heap)@) {
                Some(c) => res.0 == c && final(heap)@ == old(heap)@,
                None => call_ensures(init_func, (), *res.0) && final(heap)@ == old(self).set_context_heap(
                    old(heap)@,
                    res.0,
                ),
            },
    {
        match self.get_context(heap) {
            Some(v) => (v, false),
            None => {
                let ret = Arc::new(init_func());
                self.set_context(heap, &ret);
                (ret, true)
            },
        }
    }

    /// Hands the request to background work: counts it in `r->main->blocked`,
    /// queues the job on `jobs`, and answers `NGX_AGAIN`, so that nginx calls
    /// the handler again once the job is done.
    pub fn run_in_background<C, W>(
        &mut self,
        heap: &mut NgxHeap<C>,
        background_func: Arc<W>,
        jobs: &mut Vec<(Request, Arc<W>)>,
    ) -> (s: Status)
        requires
            old(heap)@.wf(),
            old(self).valid(old(heap)@),
        ensures
            *final(self) == *old(self),
            final(heap)@ == old(self).inc_blocked_heap(old(heap)@),
            final(heap)@.wf(),
            final(jobs)@ == old(jobs)@.push((*old(self), background_func)),
            s == Status(NGX_AGAIN),
    {
        self.inc_blocked(heap);
        jobs.push((*self, background_func));
        Status(NGX_AGAIN)
    }

}

/// Replacing a request by one whose pointers and fields are in range keeps the heap well formed.
pub proof fn lemma_with_request_wf<C>(h: HeapView<C>, i: usize, rv: RequestView<C>)
    requires
        h.wf(),
        i < h.requests.len(),
        h.request_wf(rv),
    ensures
        h.with_request(i, rv).wf(),
{
    let h2 = h.with_request(i, rv);
    assert forall|j: int| 0 <= j < h2.requests.len() implies h2.request_wf(#[trigger] h2.requests[j]) by {
        if j != i {
            assert(h.request_wf(h.requests[j]));
        }
    }
}

/// `r->loc_conf[module.ctx_index]` of the request at `req`.
pub fn ngx_http_get_module_loc_conf<C>(heap: &NgxHeap<C>, req: usize, module: Module) -> (conf: usize)
    requires
        heap@.wf(),
        req < heap@.requests.len(),
        module.ctx_index < heap@.n_modules,
    ensures
        conf == heap@.requests[req as int].loc_conf[module.ctx_index as int],
{
    proof {
        assert(heap@.request_wf(heap@.requests[req as int]));
    }
    heap.requests[req].loc_conf[module.ctx_index]
}

/// Writes null into the context slot at `v`, when `v` is not null.
pub fn null_ptr<C>(heap: &mut NgxHeap<C>, v: Option<CtxSlot>)
    requires
        old(heap)@.wf(),
        v matches Some(s) ==> s.request < old(heap)@.requests.len() && s.index < old(heap)@.n_modules,
    ensures
        final(heap)@ == match v {
            Some(s) => old(heap)@.with_ctx(s.request, s.index, None),
            None => old(heap)@,
        },
        final(heap)@.wf(),
{
    if let Some(slot) = v {
        let ghost h = heap@;
        proof {
            assert(h.request_wf(h.requests[slot.request as int]));
        }
        heap.requests[slot.request].ctx.set(slot.index, None);
        proof {
            assert(heap@.requests =~= h.with_ctx(slot.request, slot.index, None).requests);
            lemma_with_request_wf(h, slot.request, heap@.requests[slot.request as int]);
        }
    }
}

/// Storing a context keeps the heap well formed.
pub proof fn lemma_set_context_wf<C>(h: HeapView<C>, r: Request, info: Arc<C>)
    requires
        h.wf(),
        r.valid(h),
        r.has_pool(h),
    ensures
        r.set_context_heap(h, info).wf(),
{
    assert(h.request_wf(h.requests[r.request as int]));
    let p = h.requests[r.request as int].pool.unwrap();
    let h1 = h.with_ctx(r.request, r.module.ctx_index, Some(info));
    lemma_with_request_wf(h, r.request, h1.requests[r.request as int]);
    let h2 = h1.with_cleanup(p, Cleanup::DropContext(info));
    lemma_with_cleanup_wf(h1, p, Cleanup::DropContext(info));
    lemma_with_cleanup_wf(h2, p, Cleanup::NullSlot(CtxSlot { request: r.request, index: r.module.ctx_index }));
}

/// Adding a cleanup to a pool keeps the heap well formed.
pub proof fn lemma_with_cleanup_wf<C>(h: HeapView<C>, p: usize, c: Cleanup<C>)
    requires
        h.wf(),
        p < h.pools.len(),
    ensures
        h.with_cleanup(p, c).wf(),
{
    let h2 = h.with_cleanup(p, c);
    assert forall|j: int| 0 <= j < h2.requests.len() implies h2.request_wf(#[trigger] h2.requests[j]) by {
        assert(h.request_wf(h.requests[j]));
    }
}

} // verus!
