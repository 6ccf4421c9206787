# nginx-rs request layer

The request layer of an nginx module written in Rust, verified with Verus.

nginx hands a module raw pointers to its C structures. The library works on
a model of the part of that memory it touches (`src/memory.rs`): tables of
requests, upstreams, connections and pools, where a pointer is an index.

- `src/request.rs`: the request handle: main-request counters (with the
  widths of nginx's bit fields), per-module contexts, location configuration,
  upstream creation, response header fields, and `run_in_background`.
- `src/upstream.rs`: the upstream handle and its set-up.
- `src/background.rs`: one step of handing finished background requests back
  to nginx.
- `src/laws.rs`: properties that relate several operations.
- `app/`: the tokio runtime that runs background jobs, the channel and queue
  around it, and the calls into nginx's C code.
