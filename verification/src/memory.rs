//! The part of nginx's memory that the request layer reads and writes.
//!
//! nginx hands the module raw pointers to its own C structures. Here each
//! kind of structure lives in a table of its own and a pointer is an index
//! into that table; a null pointer is `None`. Only the fields that the
//! request layer touches are kept.
use std::sync::Arc;
use vstd::prelude::*;

verus! {

/// Width of the `count` bit field of `ngx_http_request_t`.
pub const COUNT_MODULUS: u32 = 0x10000;

/// Width of the `blocked` bit field of `ngx_http_request_t`.
pub const BLOCKED_MODULUS: u32 = 0x100;

/// Width of the `log_error` bit field of `ngx_peer_connection_t`.
pub const LOG_ERROR_MODULUS: u32 = 4;

/// A place in a request's per-module context array (`r->ctx[index]`).
#[derive(Clone, Copy, Debug, PartialEq, Eq, Structural)]
pub struct CtxSlot {
    pub request: usize,
    pub index: usize,
}

/// A cleanup handler registered on an nginx pool, with its data.
pub enum Cleanup<C> {
    /// Frees the boxed context that the data pointer holds.
    DropContext(Arc<C>),
    /// Writes null into the context slot that the data pointer designates.
    NullSlot(CtxSlot),
}

/// What the library reads and writes of an `ngx_http_request_t`.
pub struct NgxRequest<C> {
    /// `r->main`: the main request of this (sub)request.
    pub main: usize,
    /// `r->count`, a 16-bit field.
    pub count: u32,
    /// `r->blocked`, an 8-bit field.
    pub blocked: u32,
    /// `r->upstream`.
    pub upstream: Option<usize>,
    /// `r->connection`.
    pub connection: usize,
    /// `r->pool`.
    pub pool: Option<usize>,
    /// `r->ctx`: one slot per HTTP module.
    pub ctx: Vec<Option<Arc<C>>>,
    /// `r->loc_conf`: one location configuration address per HTTP module.
    pub loc_conf: Vec<usize>,
    /// The value of `r->headers_in.user_agent`, when the header is present.
    pub user_agent: Option<Vec<u8>>,
    /// `r->headers_out.status`.
    pub status: usize,
    /// `r->headers_out.content_length_n`.
    pub content_length_n: i64,
    /// `r->header_only`.
    pub header_only: bool,
}

/// What the library writes of an `ngx_http_upstream_t`; callbacks are code addresses.
#[derive(Clone, Copy)]
pub struct NgxUpstream {
    pub create_request: Option<usize>,
    pub reinit_request: Option<usize>,
    pub process_header: Option<usize>,
    pub abort_request: Option<usize>,
    pub finalize_request: Option<usize>,
    pub read_event_handler: Option<usize>,
    pub write_event_handler: Option<usize>,
    pub input_filter: Option<usize>,
    pub input_filter_init: Option<usize>,
    /// `u->output.tag`.
    pub output_tag: usize,
    /// `u->peer.log`.
    pub peer_log: usize,
    /// `u->peer.log_error`, a 2-bit field.
    pub peer_log_error: u32,
    /// `u->schema`; `None` while its data pointer is null.
    pub schema: Option<&'static str>,
    /// `u->conf`.
    pub conf: usize,
}

/// What the library reads of an `ngx_connection_t`.
#[derive(Clone, Copy)]
pub struct NgxConnection {
    /// `c->log`.
    pub log: usize,
}

/// What the library writes of an `ngx_pool_t`: its cleanup handlers, oldest first.
pub struct NgxPool<C> {
    pub cleanups: Vec<Cleanup<C>>,
}

/// The tables of nginx structures. `C` is the type of the module contexts:
/// every module that keeps a context on requests of this heap uses that type.
pub struct NgxHeap<C> {
    pub requests: Vec<NgxRequest<C>>,
    pub upstreams: Vec<NgxUpstream>,
    pub connections: Vec<NgxConnection>,
    pub pools: Vec<NgxPool<C>>,
    /// `ngx_http_max_module`: the length of every `ctx` and `loc_conf` array.
    pub n_modules: usize,
}

/// The mathematical value of a request.
pub struct RequestView<C> {
    pub main: usize,
    pub count: u32,
    pub blocked: u32,
    pub upstream: Option<usize>,
    pub connection: usize,
    pub pool: Option<usize>,
    pub ctx: Seq<Option<Arc<C>>>,
    pub loc_conf: Seq<usize>,
    pub user_agent: Option<Seq<u8>>,
    pub status: usize,
    pub content_length_n: i64,
    pub header_only: bool,
}

/// The mathematical value of the whole heap.
pub struct HeapView<C> {
    pub requests: Seq<RequestView<C>>,
    pub upstreams: Seq<NgxUpstream>,
    pub connections: Seq<NgxConnection>,
    pub pools: Seq<Seq<Cleanup<C>>>,
    pub n_modules: usize,
}

pub open spec fn user_agent_view(ua: Option<Vec<u8>>) -> Option<Seq<u8>> {
    match ua {
        Some(v) => Some(v@),
        None => None,
    }
}

impl<C> View for NgxRequest<C> {
    type V = RequestView<C>;

    open spec fn view(&self) -> RequestView<C> {
        RequestView {
            main: self.main,
            count: self.count,
            blocked: self.blocked,
            upstream: self.upstream,
            connection: self.connection,
            pool: self.pool,
            ctx: self.ctx@,
            loc_conf: self.loc_conf@,
            user_agent: user_agent_view(self.user_agent),
            status: self.status,
            content_length_n: self.content_length_n,
            header_only: self.header_only,
        }
    }
}

impl<C> View for NgxPool<C> {
    type V = Seq<Cleanup<C>>;

    open spec fn view(&self) -> Seq<Cleanup<C>> {
        self.cleanups@
    }
}

impl<C> View for NgxHeap<C> {
    type V = HeapView<C>;

    open spec fn view(&self) -> HeapView<C> {
        HeapView {
            requests: self.requests@.map_values(|r: NgxRequest<C>| r@),
            upstreams: self.upstreams@,
            connections: self.connections@,
            pools: self.pools@.map_values(|p: NgxPool<C>| p@),
            n_modules: self.n_modules,
        }
    }
}

/// An upstream as `ngx_pcalloc` hands it out: every field zero.
pub open spec fn zeroed_upstream() -> NgxUpstream {
    NgxUpstream {
        create_request: None,
        reinit_request: None,
        process_header: None,
        abort_request: None,
        finalize_request: None,
        read_event_handler: None,
        write_event_handler: None,
        input_filter: None,
        input_filter_init: None,
        output_tag: 0,
        peer_log: 0,
        peer_log_error: 0,
        schema: None,
        conf: 0,
    }
}

impl NgxUpstream {
    /// A zero-filled upstream.
    pub fn zeroed() -> (u: NgxUpstream)
        ensures
            u == zeroed_upstream(),
    {
        NgxUpstream {
            create_request: None,
            reinit_request: None,
            process_header: None,
            abort_request: None,
            finalize_request: None,
            read_event_handler: None,
            write_event_handler: None,
            input_filter: None,
            input_filter_init: None,
            output_tag: 0,
            peer_log: 0,
            peer_log_error: 0,
            schema: None,
            conf: 0,
        }
    }
}

impl<C> NgxHeap<C> {
    /// Whether the heap is well formed (`wf`).
    pub fn is_wf(&self) -> (b: bool)
        ensures
            b == self@.wf(),
    {
        let n = self.requests.len();
        let mut i: usize = 0;
        while i < n
            invariant
                n == self.requests.len(),
                i <= n,
                forall|j: int| 0 <= j < i ==> self@.request_wf(#[trigger] self@.requests[j]),
            decreases n - i,
        {
            let r = &self.requests[i];
            let upstream_ok = match r.upstream {
                Some(u) => u < self.upstreams.len(),
                None => true,
            };
            let pool_ok = match r.pool {
                Some(p) => p < self.pools.len(),
                None => true,
            };
            if !(r.main < n && r.count < COUNT_MODULUS && r.blocked < BLOCKED_MODULUS && upstream_ok
                && r.connection < self.connections.len() && pool_ok && r.ctx.len() == self.n_modules
                && r.loc_conf.len() == self.n_modules) {
                assert(!self@.request_wf(self@.requests[i as int]));
                return false;
            }
            i += 1;
        }
        let m = self.upstreams.len();
        let mut k: usize = 0;
        while k < m
            invariant
                m == self.upstreams.len(),
                k <= m,
                forall|j: int| 0 <= j < k ==> #[trigger] self@.upstreams[j].peer_log_error < LOG_ERROR_MODULUS,
            decreases m - k,
        {
            if self.upstreams[k].peer_log_error >= LOG_ERROR_MODULUS {
                return false;
            }
            k += 1;
        }
        true
    }
}

impl<C> HeapView<C> {
    /// The pointers and bit fields of one request are in range.
    pub open spec fn request_wf(self, rv: RequestView<C>) -> bool {
        &&& rv.main < self.requests.len()
        &&& rv.count < COUNT_MODULUS
        &&& rv.blocked < BLOCKED_MODULUS
        &&& (rv.upstream matches Some(u) ==> u < self.upstreams.len())
        &&& rv.connection < self.connections.len()
        &&& (rv.pool matches Some(p) ==> p < self.pools.len())
        &&& rv.ctx.len() == self.n_modules
        &&& rv.loc_conf.len() == self.n_modules
    }

    /// Every pointer in the heap designates an entry of its table, and every
    /// bit field holds a value of its width.
    pub open spec fn wf(self) -> bool {
        &&& forall|i: int| 0 <= i < self.requests.len() ==> self.request_wf(#[trigger] self.requests[i])
        &&& forall|i: int| 0 <= i < self.upstreams.len() ==> #[trigger] self.upstreams[i].peer_log_error < LOG_ERROR_MODULUS
    }

    /// `r->main` of request `r`.
    pub open spec fn main_of(self, r: usize) -> usize {
        self.requests[r as int].main
    }

    /// The heap with one request replaced.
    pub open spec fn with_request(self, i: usize, rv: RequestView<C>) -> HeapView<C> {
        HeapView { requests: self.requests.update(i as int, rv), ..self }
    }

    /// The heap with the `count` field of request `i` set to `v`.
    pub open spec fn with_count(self, i: usize, v: u32) -> HeapView<C> {
        self.with_request(i, RequestView { count: v, ..self.requests[i as int] })
    }

    /// The heap with the `blocked` field of request `i` set to `v`.
    pub open spec fn with_blocked(self, i: usize, v: u32) -> HeapView<C> {
        self.with_request(i, RequestView { blocked: v, ..self.requests[i as int] })
    }

    /// The heap with the `upstream` field of request `i` set to `u`.
    pub open spec fn with_upstream_of(self, i: usize, u: Option<usize>) -> HeapView<C> {
        self.with_request(i, RequestView { upstream: u, ..self.requests[i as int] })
    }

    /// The heap with context slot `index` of request `i` set to `v`.
    pub open spec fn with_ctx(self, i: usize, index: usize, v: Option<Arc<C>>) -> HeapView<C> {
        self.with_request(
            i,
            RequestView { ctx: self.requests[i as int].ctx.update(index as int, v), ..self.requests[i as int] },
        )
    }

    /// The heap with upstream `u` replaced.
    pub open spec fn with_upstream(self, u: usize, uv: NgxUpstream) -> HeapView<C> {
        HeapView { upstreams: self.upstreams.update(u as int, uv), ..self }
    }

    /// The heap after one cleanup handler has run. Freeing a context leaves
    /// nothing that the model holds; nulling a slot empties it.
    pub open spec fn run_cleanup(self, c: Cleanup<C>) -> HeapView<C> {
        match c {
            Cleanup::DropContext(_) => self,
            Cleanup::NullSlot(s) => if s.request < self.requests.len() && s.index
                < self.requests[s.request as int].ctx.len() {
                self.with_ctx(s.request, s.index, None)
            } else {
                self
            },
        }
    }

    /// The heap after the handlers `cs` have run newest first, as
    /// `ngx_destroy_pool` runs a pool's cleanup list.
    pub open spec fn run_cleanups(self, cs: Seq<Cleanup<C>>) -> HeapView<C>
        decreases cs.len(),
    {
        if cs.len() == 0 {
            self
        } else {
            self.run_cleanup(cs.last()).run_cleanups(cs.drop_last())
        }
    }

    /// The heap after pool `p` is destroyed: its handlers have run and it
    /// holds none any more.
    pub open spec fn destroy_pool(self, p: usize) -> HeapView<C> {
        let h = self.run_cleanups(self.pools[p as int]);
        HeapView { pools: h.pools.update(p as int, Seq::empty()), ..h }
    }

    /// The heap with `c` added to the cleanups of pool `p`.
    pub open spec fn with_cleanup(self, p: usize, c: Cleanup<C>) -> HeapView<C> {
        HeapView { pools: self.pools.update(p as int, self.pools[p as int].push(c)), ..self }
    }
}

} // verus!
