use nginx_rs::background::{finish_step, Finished};
use nginx_rs::memory::{Cleanup, CtxSlot, NgxConnection, NgxHeap, NgxPool, NgxRequest, NgxUpstream};
use nginx_rs::request::{ngx_http_get_module_loc_conf, null_ptr, Module, Pool, Request};
use nginx_rs::status::{HTTPStatus, Status, NGX_AGAIN, NGX_ERROR, NGX_ERROR_ERR, NGX_OK};
use nginx_rs::upstream::Upstream;
use std::cell::Cell;
use std::collections::VecDeque;
use std::sync::Arc;

const MODULES: usize = 3;

fn request(main: usize, connection: usize, pool: Option<usize>) -> NgxRequest<String> {
    NgxRequest {
        main,
        count: 1,
        blocked: 0,
        upstream: None,
        connection,
        pool,
        ctx: vec![None, None, None],
        loc_conf: vec![100, 200, 300],
        user_agent: Some(b"curl/8.0".to_vec()),
        status: 0,
        content_length_n: -1,
        header_only: false,
    }
}

/// Request 0 is a main request, request 1 a subrequest of it, request 2 a
/// main request whose pool is gone.
fn heap() -> NgxHeap<String> {
    NgxHeap {
        requests: vec![request(0, 0, Some(0)), request(0, 1, Some(0)), request(2, 1, None)],
        upstreams: vec![NgxUpstream::zeroed()],
        connections: vec![NgxConnection { log: 7000 }, NgxConnection { log: 8000 }],
        pools: vec![NgxPool { cleanups: Vec::new() }],
        n_modules: MODULES,
    }
}

fn handle(h: &NgxHeap<String>, r: usize, ctx_index: usize) -> Request {
    Request::from_ngx_http_request(h, r, Module { ctx_index })
}

#[test]
fn from_request_keeps_pool_and_address() {
    let h = heap();
    let mut r = handle(&h, 1, 2);
    assert_eq!(r.get_request(), 1);
    assert_eq!(r.module, Module { ctx_index: 2 });
    assert_eq!(*r.pool(), Pool { pool: Some(0) });
    let gone = handle(&h, 2, 0);
    assert_eq!(gone.the_pool, Pool { pool: None });
}

#[test]
fn pool_is_mutable_in_place() {
    let h = heap();
    let mut r = handle(&h, 0, 0);
    r.pool().pool = Some(5);
    assert_eq!(r.the_pool, Pool { pool: Some(5) });
}

#[test]
fn blocked_round_trip() {
    let mut h = heap();
    let mut r = handle(&h, 0, 0);
    assert_eq!(r.inc_blocked(&mut h), 1);
    assert_eq!(r.get_blocked_count(&h), 1);
    assert_eq!(r.dec_blocked(&mut h), 0);
    assert_eq!(r.get_blocked_count(&h), 0);
}

#[test]
fn blocked_is_counted_on_the_main_request() {
    let mut h = heap();
    let mut sub = handle(&h, 1, 0);
    assert_eq!(sub.inc_blocked(&mut h), 1);
    assert_eq!(h.requests[0].blocked, 1);
    assert_eq!(h.requests[1].blocked, 0);
}

#[test]
fn dec_blocked_stops_at_zero() {
    let mut h = heap();
    let mut r = handle(&h, 0, 0);
    assert_eq!(r.dec_blocked(&mut h), 0);
    assert_eq!(h.requests[0].blocked, 0);
}

#[test]
fn blocked_field_wraps_at_eight_bits() {
    let mut h = heap();
    h.requests[0].blocked = 255;
    let mut r = handle(&h, 0, 0);
    assert_eq!(r.inc_blocked(&mut h), 256);
    assert_eq!(h.requests[0].blocked, 0);
}

#[test]
fn main_count_round_trip() {
    let mut h = heap();
    let mut r = handle(&h, 1, 0);
    assert_eq!(r.get_main_count(&h), 1);
    assert_eq!(r.inc_main_count(&mut h), 2);
    assert_eq!(h.requests[0].count, 2);
    assert_eq!(r.dec_main_count(&mut h), 1);
    assert_eq!(r.dec_main_count(&mut h), 0);
    assert_eq!(r.dec_main_count(&mut h), 0);
    assert_eq!(r.get_main_count(&h), 0);
}

#[test]
fn main_count_field_wraps_at_sixteen_bits() {
    let mut h = heap();
    h.requests[0].count = 65535;
    let mut r = handle(&h, 0, 0);
    assert_eq!(r.inc_main_count(&mut h), 65536);
    assert_eq!(h.requests[0].count, 0);
}

#[test]
fn is_main_tells_subrequests_apart() {
    let h = heap();
    assert!(handle(&h, 0, 0).is_main(&h));
    assert!(!handle(&h, 1, 0).is_main(&h));
}

#[test]
fn loc_conf_of_the_module() {
    let h = heap();
    let mut r = handle(&h, 1, 1);
    assert_eq!(r.get_loc_conf(&h), 200);
    assert_eq!(r.get_module_loc_conf(&h, &Module { ctx_index: 2 }), 300);
    assert_eq!(ngx_http_get_module_loc_conf(&h, 0, Module { ctx_index: 0 }), 100);
}

#[test]
fn connection_address() {
    let h = heap();
    assert_eq!(handle(&h, 1, 0).connection(&h), 1);
}

#[test]
fn upstream_absent_then_set() {
    let mut h = heap();
    let mut r = handle(&h, 0, 1);
    assert!(r.get_upstream(&h).is_none());
    let u = Upstream::new(0, Module { ctx_index: 1 });
    r.set_upstream(&mut h, &u);
    let got = r.get_upstream(&h).unwrap();
    assert_eq!(got.up, 0);
    assert_eq!(got.module, Module { ctx_index: 1 });
}

#[test]
fn create_upstream_fills_a_fresh_upstream() {
    let mut h = heap();
    let mut r = handle(&h, 1, 2);
    let u = r.create_upstream(&mut h);
    assert_eq!(u.up, 1);
    assert_eq!(u.module, Module { ctx_index: 2 });
    assert_eq!(h.upstreams.len(), 2);
    let made = h.upstreams[1];
    assert_eq!(made.peer_log, 8000);
    assert_eq!(made.peer_log_error, NGX_ERROR_ERR);
    assert_eq!(made.conf, 300);
    assert_eq!(made.create_request, None);
    assert_eq!(made.schema, None);
    assert_eq!(h.requests[1].upstream, None);
}

#[test]
fn upstream_setters_write_their_field() {
    let mut h = heap();
    let mut u = Upstream::new(0, Module { ctx_index: 0 });
    u.set_create_request(&mut h, Some(1));
    u.set_reinit_request(&mut h, Some(2));
    u.set_process_header(&mut h, Some(3));
    u.set_abort_request(&mut h, Some(4));
    u.set_finalize_request(&mut h, Some(5));
    u.set_read_event_handler(&mut h, Some(6));
    u.set_write_event_handler(&mut h, Some(7));
    u.set_input_filter(&mut h, Some(8));
    u.set_input_filter_init(&mut h, Some(9));
    u.set_output_tag(&mut h, 10);
    u.set_conf(&mut h, 11);
    u.set_schema(&mut h, "http://");
    let got = h.upstreams[0];
    assert_eq!(got.create_request, Some(1));
    assert_eq!(got.reinit_request, Some(2));
    assert_eq!(got.process_header, Some(3));
    assert_eq!(got.abort_request, Some(4));
    assert_eq!(got.finalize_request, Some(5));
    assert_eq!(got.read_event_handler, Some(6));
    assert_eq!(got.write_event_handler, Some(7));
    assert_eq!(got.input_filter, Some(8));
    assert_eq!(got.input_filter_init, Some(9));
    assert_eq!(got.output_tag, 10);
    assert_eq!(got.conf, 11);
    assert_eq!(got.schema, Some("http://"));
}

#[test]
fn log_error_keeps_two_bits() {
    let mut h = heap();
    let mut u = Upstream::new(0, Module { ctx_index: 0 });
    u.set_log_error(&mut h, 2);
    assert_eq!(h.upstreams[0].peer_log_error, 2);
    u.set_log_error(&mut h, 5);
    assert_eq!(h.upstreams[0].peer_log_error, 1);
}

#[test]
fn headers_out_fields() {
    let mut h = heap();
    let mut r = handle(&h, 0, 0);
    r.set_status(&mut h, HTTPStatus(200));
    r.set_content_length_n(&mut h, 42);
    assert_eq!(h.requests[0].status, 200);
    assert_eq!(h.requests[0].content_length_n, 42);
    assert!(!r.set_header_only(&h));
    h.requests[0].header_only = true;
    assert!(r.set_header_only(&h));
}

#[test]
fn content_length_is_an_off_t() {
    let mut h = heap();
    let mut r = handle(&h, 0, 0);
    r.set_content_length_n(&mut h, usize::MAX);
    assert_eq!(h.requests[0].content_length_n, -1);
}

#[test]
fn user_agent_value() {
    let h = heap();
    assert_eq!(handle(&h, 0, 0).user_agent(&h), b"curl/8.0");
}

#[test]
fn complex_value_only_on_success() {
    let h = heap();
    let r = handle(&h, 0, 0);
    assert_eq!(r.get_complex_value(NGX_OK, b"abc".to_vec()), Some(b"abc".to_vec()));
    assert_eq!(r.get_complex_value(NGX_ERROR, b"abc".to_vec()), None);
}

#[test]
fn context_read_after_write() {
    let mut h = heap();
    let mut r = handle(&h, 0, 1);
    assert!(r.get_context(&h).is_none());
    let info = Arc::new(String::from("ctx"));
    r.set_context(&mut h, &info);
    let got = r.get_context(&h).unwrap();
    assert!(Arc::ptr_eq(&got, &info));
    assert!(handle(&h, 0, 0).get_context(&h).is_none());
    assert!(handle(&h, 1, 1).get_context(&h).is_none());
}

#[test]
fn set_context_registers_two_cleanups() {
    let mut h = heap();
    let mut r = handle(&h, 1, 2);
    let info = Arc::new(String::from("ctx"));
    r.set_context(&mut h, &info);
    let cleanups = &h.pools[0].cleanups;
    assert_eq!(cleanups.len(), 2);
    match &cleanups[0] {
        Cleanup::DropContext(c) => assert!(Arc::ptr_eq(c, &info)),
        Cleanup::NullSlot(_) => panic!("the first cleanup frees the context"),
    }
    match &cleanups[1] {
        Cleanup::NullSlot(slot) => assert_eq!(*slot, CtxSlot { request: 1, index: 2 }),
        Cleanup::DropContext(_) => panic!("the second cleanup nulls the slot"),
    }
}

#[test]
fn get_or_init_context_builds_once() {
    let mut h = heap();
    let mut r = handle(&h, 0, 2);
    let calls = Cell::new(0);
    let (first, made) = r.get_or_init_context(&mut h, || {
        calls.set(calls.get() + 1);
        String::from("made")
    });
    assert!(made);
    assert_eq!(*first, "made");
    let (second, made_again) = r.get_or_init_context(&mut h, || {
        calls.set(calls.get() + 1);
        String::from("other")
    });
    assert!(!made_again);
    assert!(Arc::ptr_eq(&first, &second));
    assert_eq!(calls.get(), 1);
    assert_eq!(h.pools[0].cleanups.len(), 2);
}

#[test]
fn null_ptr_clears_a_slot() {
    let mut h = heap();
    let mut r = handle(&h, 0, 1);
    r.set_context(&mut h, &Arc::new(String::from("ctx")));
    null_ptr(&mut h, None);
    assert!(r.get_context(&h).is_some());
    null_ptr(&mut h, Some(CtxSlot { request: 0, index: 1 }));
    assert!(r.get_context(&h).is_none());
}

#[test]
fn run_in_background_counts_and_queues() {
    let mut h = heap();
    let mut r = handle(&h, 1, 0);
    let mut jobs: Vec<(Request, Arc<u8>)> = Vec::new();
    let status = r.run_in_background(&mut h, Arc::new(9u8), &mut jobs);
    assert_eq!(status, Status(NGX_AGAIN));
    assert_eq!(h.requests[0].blocked, 1);
    assert_eq!(jobs.len(), 1);
    assert_eq!(jobs[0].0.request, 1);
    assert_eq!(*jobs[0].1, 9);
}

#[test]
fn finish_step_on_empty_queue() {
    let mut h = heap();
    let mut q: VecDeque<Request> = VecDeque::new();
    assert!(matches!(finish_step(&mut h, &mut q), Finished::QueueEmpty));
}

#[test]
fn background_round_trip_resumes_the_request() {
    let mut h = heap();
    let mut r = handle(&h, 1, 0);
    let mut jobs: Vec<(Request, Arc<u8>)> = Vec::new();
    r.run_in_background(&mut h, Arc::new(0u8), &mut jobs);
    let mut q: VecDeque<Request> = VecDeque::new();
    q.push_back(jobs[0].0);
    match finish_step(&mut h, &mut q) {
        Finished::Resume(back) => assert_eq!(back.request, 1),
        _ => panic!("the request has a pool and is resumed"),
    }
    assert_eq!(h.requests[0].blocked, 0);
    assert!(q.is_empty());
}

#[test]
fn finish_step_skips_requests_without_pool() {
    let mut h = heap();
    let mut gone = handle(&h, 2, 0);
    gone.inc_blocked(&mut h);
    let mut q: VecDeque<Request> = VecDeque::new();
    q.push_back(gone);
    q.push_back(handle(&h, 0, 0));
    assert!(matches!(finish_step(&mut h, &mut q), Finished::PoolGone(back) if back.request == 2));
    assert_eq!(h.requests[2].blocked, 0);
    assert!(matches!(finish_step(&mut h, &mut q), Finished::Resume(back) if back.request == 0));
    assert!(matches!(finish_step(&mut h, &mut q), Finished::QueueEmpty));
}

#[test]
fn blocked_tracks_requests_out_in_the_background() {
    let mut h = heap();
    let mut main = handle(&h, 0, 0);
    let mut sub = handle(&h, 1, 0);
    let mut jobs: Vec<(Request, Arc<u8>)> = Vec::new();
    main.run_in_background(&mut h, Arc::new(1u8), &mut jobs);
    sub.run_in_background(&mut h, Arc::new(2u8), &mut jobs);
    assert_eq!(h.requests[0].blocked, 2);
    let mut q: VecDeque<Request> = VecDeque::new();
    q.push_back(jobs[1].0);
    assert!(matches!(finish_step(&mut h, &mut q), Finished::Resume(back) if back.request == 1));
    assert_eq!(h.requests[0].blocked, 1);
    q.push_back(jobs[0].0);
    assert!(matches!(finish_step(&mut h, &mut q), Finished::Resume(back) if back.request == 0));
    assert_eq!(h.requests[0].blocked, 0);
}

#[test]
fn destroying_the_pool_clears_the_context() {
    let mut h = heap();
    let mut r = handle(&h, 0, 1);
    r.set_context(&mut h, &Arc::new(String::from("ctx")));
    let cleanups = std::mem::take(&mut h.pools[0].cleanups);
    for c in cleanups.into_iter().rev() {
        match c {
            Cleanup::NullSlot(slot) => null_ptr(&mut h, Some(slot)),
            Cleanup::DropContext(ctx) => drop(ctx),
        }
    }
    assert!(r.get_context(&h).is_none());
}

#[test]
fn well_formedness_checks() {
    let mut h = heap();
    assert!(h.is_wf());
    let mut q: VecDeque<Request> = VecDeque::new();
    q.push_back(handle(&h, 1, 0));
    assert!(nginx_rs::background::queue_is_valid(&h, &q));
    q.push_back(Request { request: 9, module: Module { ctx_index: 0 }, the_pool: Pool { pool: None } });
    assert!(!nginx_rs::background::queue_is_valid(&h, &q));
    h.requests[1].blocked = 256;
    assert!(!h.is_wf());
    h.requests[1].blocked = 0;
    h.upstreams[0].peer_log_error = 4;
    assert!(!h.is_wf());
}
