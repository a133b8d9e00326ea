//! `GET /health_check`.
use vstd::prelude::*;
use crate::routes::STATUS_OK;

verus! {

/// The status of a health check: always success, with an empty body.
pub fn health_check() -> (r: u16)
    ensures
        r == STATUS_OK,
{
    STATUS_OK
}

} // verus!
