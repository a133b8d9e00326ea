//! The two HTTP endpoints and the status codes they answer with.
pub mod add_user;
pub mod health_check;

use vstd::prelude::*;

verus! {

/// `200 OK`.
pub const STATUS_OK: u16 = 200;

/// `400 Bad Request`.
pub const STATUS_BAD_REQUEST: u16 = 400;

/// `500 Internal Server Error`.
pub const STATUS_INTERNAL_SERVER_ERROR: u16 = 500;

} // verus!
