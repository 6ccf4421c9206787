//! The handle on an nginx upstream (`ngx_http_upstream_t`) and its set-up.
use crate::memory::{HeapView, NgxHeap, NgxUpstream, LOG_ERROR_MODULUS};
use crate::request::Module;
use vstd::prelude::*;

verus! {

/// An upstream, by address, with the module that made it.
#[derive(Clone, Copy, Debug)]
pub struct Upstream {
    pub up: usize,
    pub module: Module,
}

/// Writing `uv` over upstream `u` keeps the heap well formed when its bit field is in range.
proof fn lemma_with_upstream_wf<C>(h: HeapView<C>, u: usize, uv: NgxUpstream)
    requires
        h.wf(),
        u < h.upstreams.len(),
        uv.peer_log_error < LOG_ERROR_MODULUS,
    ensures
        h.with_upstream(u, uv).wf(),
{
    let h2 = h.with_upstream(u, uv);
    assert forall|i: int| 0 <= i < h2.requests.len() implies h2.request_wf(#[trigger] h2.requests[i]) by {
        assert(h.request_wf(h.requests[i]));
    }
    assert forall|j: int| 0 <= j < h2.upstreams.len() implies #[trigger] h2.upstreams[j].peer_log_error
        < LOG_ERROR_MODULUS by {
        if j != u {
            assert(h.upstreams[j].peer_log_error < LOG_ERROR_MODULUS);
        }
    }
}

impl Upstream {
    /// The handle designates an upstream of `h`.
    pub open spec fn valid<C>(self, h: HeapView<C>) -> bool {
        self.up < h.upstreams.len()
    }

    /// The upstream that the handle designates.
    pub open spec fn target<C>(self, h: HeapView<C>) -> NgxUpstream {
        h.upstreams[self.up as int]
    }

    /// A handle on the upstream at `u`, made by `the_mod`.
    pub fn new(u: usize, the_mod: Module) -> (up: Upstream)
        ensures
            up.up == u,
            up.module == the_mod,
    {
        Upstream { up: u, module: the_mod }
    }

    /// Writes `uv` over the designated upstream.
    fn write<C>(&self, heap: &mut NgxHeap<C>, uv: NgxUpstream)
        requires
            old(heap)@.wf(),
            self.valid(old(heap)@),
            uv.peer_log_error < LOG_ERROR_MODULUS,
        ensures
            final(heap)@ == old(heap)@.with_upstream(self.up, uv),
            final(heap)@.wf(),
    {
        let ghost h = heap@;
        heap.upstreams.set(self.up, uv);
        proof {
            assert(heap@.requests =~= h.requests);
            assert(heap@.pools =~= h.pools);
            lemma_with_upstream_wf(h, self.up, uv);
        }
    }

    /// Sets `u->create_request`.
    pub fn set_create_request<C>(&mut self, heap: &mut NgxHeap<C>, request: Option<usize>)
        requires
            old(heap)@.wf(),
            old(self).valid(old(heap)@),
        ensures
            *final(self) == *old(self),
            final(heap)@ == old(heap)@.with_upstream(
                old(self).up,
                NgxUpstream { create_request: request, ..old(self).target(old(heap)@) },
            ),
            final(heap)@.wf(),
    {
        proof {
            assert(heap@.upstreams[self.up as int].peer_log_error < LOG_ERROR_MODULUS);
        }
        let uv = NgxUpstream { create_request: request, ..heap.upstreams[self.up] };
        self.write(heap, uv);
    }

    /// Sets `u->reinit_request`.
    pub fn set_reinit_request<C>(&mut self, heap: &mut NgxHeap<C>, request: Option<usize>)
        requires
            old(heap)@.wf(),
            old(self).valid(old(heap)@),
        ensures
            *final(self) == *old(self),
            final(heap)@ == old(heap)@.with_upstream(
                old(self).up,
                NgxUpstream { reinit_request: request, ..old(self).target(old(heap)@) },
            ),
            final(heap)@.wf(),
    {
        proof {
            assert(heap@.upstreams[self.up as int].peer_log_error < LOG_ERROR_MODULUS);
        }
        let uv = NgxUpstream { reinit_request: request, ..heap.upstreams[self.up] };
        self.write(heap, uv);
    }

    /// Sets `u->output.tag` to the address of a module.
    pub fn set_output_tag<C>(&mut self, heap: &mut NgxHeap<C>, tag: usize)
        requires
            old(heap)@.wf(),
            old(self).valid(old(heap)@),
        ensures
            *final(self) == *old(self),
            final(heap)@ == old(heap)@.with_upstream(
                old(self).up,
                NgxUpstream { output_tag: tag, ..old(self).target(old(heap)@) },
            ),
            final(heap)@.wf(),
    {
        proof {
            assert(heap@.upstreams[self.up as int].peer_log_error < LOG_ERROR_MODULUS);
        }
        let uv = NgxUpstream { output_tag: tag, ..heap.upstreams[self.up] };
        self.write(heap, uv);
    }

    /// Sets `u->process_header`.
    pub fn set_process_header<C>(&mut self, heap: &mut NgxHeap<C>, request: Option<usize>)
        requires
            old(heap)@.wf(),
            old(self).valid(old(heap)@),
        ensures
            *final(self) == *old(self),
            final(heap)@ == old(heap)@.with_upstream(
                old(self).up,
                NgxUpstream { process_header: request, ..old(self).target(old(heap)@) },
            ),
            final(heap)@.wf(),
    {
        proof {
            assert(heap@.upstreams[self.up as int].peer_log_error < LOG_ERROR_MODULUS);
        }
        let uv = NgxUpstream { process_header: request, ..heap.upstreams[self.up] };
        self.write(heap, uv);
    }

    /// Sets `u->abort_request`.
    pub fn set_abort_request<C>(&mut self, heap: &mut NgxHeap<C>, request: Option<usize>)
        requires
            old(heap)@.wf(),
            old(self).valid(old(heap)@),
        ensures
            *final(self) == *old(self),
            final(heap)@ == old(heap)@.with_upstream(
                old(self).up,
                NgxUpstream { abort_request: request, ..old(self).target(old(heap)@) },
            ),
            final(heap)@.wf(),
    {
        proof {
            assert(heap@.upstreams[self.up as int].peer_log_error < LOG_ERROR_MODULUS);
        }
        let uv = NgxUpstream { abort_request: request, ..heap.upstreams[self.up] };
        self.write(heap, uv);
    }

    /// Sets `u->finalize_request`.
    pub fn set_finalize_request<C>(&mut self, heap: &mut NgxHeap<C>, request: Option<usize>)
        requires
            old(heap)@.wf(),
            old(self).valid(old(heap)@),
        ensures
            *final(self) == *old(self),
            final(heap)@ == old(heap)@.with_upstream(
                old(self).up,
                NgxUpstream { finalize_request: request, ..old(self).target(old(heap)@) },
            ),
            final(heap)@.wf(),
    {
        proof {
            assert(heap@.upstreams[self.up as int].peer_log_error < LOG_ERROR_MODULUS);
        }
        let uv = NgxUpstream { finalize_request: request, ..heap.upstreams[self.up] };
        self.write(heap, uv);
    }

    /// Sets `u->read_event_handler`.
    pub fn set_read_event_handler<C>(&mut self, heap: &mut NgxHeap<C>, handler: Option<usize>)
        requires
            old(heap)@.wf(),
            old(self).valid(old(heap)@),
        ensures
            *final(self) == *old(self),
            final(heap)@ == old(heap)@.with_upstream(
                old(self).up,
                NgxUpstream { read_event_handler: handler, ..old(self).target(old(heap)@) },
            ),
            final(heap)@.wf(),
    {
        proof {
            assert(heap@.upstreams[self.up as int].peer_log_error < LOG_ERROR_MODULUS);
        }
        let uv = NgxUpstream { read_event_handler: handler, ..heap.upstreams[self.up] };
        self.write(heap, uv);
    }

    /// Sets `u->write_event_handler`.
    pub fn set_write_event_handler<C>(&mut self, heap: &mut NgxHeap<C>, handler: Option<usize>)
        requires
            old(heap)@.wf(),
            old(self).valid(old(heap)@),
        ensures
            *final(self) == *old(self),
            final(heap)@ == old(heap)@.with_upstream(
                old(self).up,
                NgxUpstream { write_event_handler: handler, ..old(self).target(old(heap)@) },
            ),
            final(heap)@.wf(),
    {
        proof {
            assert(heap@.upstreams[self.up as int].peer_log_error < LOG_ERROR_MODULUS);
        }
        let uv = NgxUpstream { write_event_handler: handler, ..heap.upstreams[self.up] };
        self.write(heap, uv);
    }

    /// Sets `u->peer.log_error`; the 2-bit field keeps `level` modulo 4.
    pub fn set_log_error<C>(&mut self, heap: &mut NgxHeap<C>, level: u32)
        requires
            old(heap)@.wf(),
            old(self).valid(old(heap)@),
        ensures
            *final(self) == *old(self),
            final(heap)@ == old(heap)@.with_upstream(
                old(self).up,
                NgxUpstream {
                    peer_log_error: (level % LOG_ERROR_MODULUS) as u32,
                    ..old(self).target(old(heap)@)
                },
            ),
            final(heap)@.wf(),
    {
        let uv = NgxUpstream { peer_log_error: level % LOG_ERROR_MODULUS, ..heap.upstreams[self.up] };
        self.write(heap, uv);
    }

    /// Sets `u->input_filter`.
    pub fn set_input_filter<C>(&mut self, heap: &mut NgxHeap<C>, handler: Option<usize>)
        requires
            old(heap)@.wf(),
            old(self).valid(old(heap)@),
        ensures
            *final(self) == *old(self),
            final(heap)@ == old(heap)@.with_upstream(
                old(self).up,
                NgxUpstream { input_filter: handler, ..old(self).target(old(heap)@) },
            ),
            final(heap)@.wf(),
    {
        proof {
            assert(heap@.upstreams[self.up as int].peer_log_error < LOG_ERROR_MODULUS);
        }
        let uv = NgxUpstream { input_filter: handler, ..heap.upstreams[self.up] };
        self.write(heap, uv);
    }

    /// Sets `u->input_filter_init`.
    pub fn set_input_filter_init<C>(&mut self, heap: &mut NgxHeap<C>, handler: Option<usize>)
        requires
            old(heap)@.wf(),
            old(self).valid(old(heap)@),
        ensures
            *final(self) == *old(self),
            final(heap)@ == old(heap)@.with_upstream(
                old(self).up,
                NgxUpstream { input_filter_init: handler, ..old(self).target(old(heap)@) },
            ),
            final(heap)@.wf(),
    {
        proof {
            assert(heap@.upstreams[self.up as int].peer_log_error < LOG_ERROR_MODULUS);
        }
        let uv = NgxUpstream { input_filter_init: handler, ..heap.upstreams[self.up] };
        self.write(heap, uv);
    }

    /// Points `u->schema` at `schema`.
    pub fn set_schema<C>(&mut self, heap: &mut NgxHeap<C>, schema: &'static str)
        requires
            old(heap)@.wf(),
            old(self).valid(old(heap)@),
        ensures
            *final(self) == *old(self),
            final(heap)@ == old(heap)@.with_upstream(
                old(self).up,
                NgxUpstream { schema: Some(schema), ..old(self).target(old(heap)@) },
            ),
            final(heap)@.wf(),
    {
        proof {
            assert(heap@.upstreams[self.up as int].peer_log_error < LOG_ERROR_MODULUS);
        }
        let uv = NgxUpstream { schema: Some(schema), ..heap.upstreams[self.up] };
        self.write(heap, uv);
    }

    /// Sets `u->conf`.
    pub fn set_conf<C>(&mut self, heap: &mut NgxHeap<C>, conf: usize)
        requires
            old(heap)@.wf(),
            old(self).valid(old(heap)@),
        ensures
            *final(self) == *old(self),
            final(heap)@ == old(heap)@.with_upstream(
                old(self).up,
                NgxUpstream { conf: conf, ..old(self).target(old(heap)@) },
            ),
            final(heap)@.wf(),
    {
        proof {
            assert(heap@.upstreams[self.up as int].peer_log_error < LOG_ERROR_MODULUS);
        }
        let uv = NgxUpstream { conf: conf, ..heap.upstreams[self.up] };
        self.write(heap, uv);
    }
}

} // verus!
