//! Return codes of nginx handlers and HTTP status codes.
use vstd::prelude::*;

verus! {

/// `NGX_OK`.
pub const NGX_OK: isize = 0;

/// `NGX_ERROR`.
pub const NGX_ERROR: isize = -1;

/// `NGX_AGAIN`: the handler is to be called again later.
pub const NGX_AGAIN: isize = -2;

/// `NGX_ERROR_ERR` of `ngx_connection_log_error_e`.
pub const NGX_ERROR_ERR: u32 = 1;

/// The `ngx_int_t` that an nginx handler returns.
#[derive(Clone, Copy, Debug, PartialEq, Eq, Structural)]
pub struct Status(pub isize);

/// An HTTP response status code (`ngx_uint_t`).
#[derive(Clone, Copy, Debug, PartialEq, Eq, Structural)]
pub struct HTTPStatus(pub usize);

} // verus!
