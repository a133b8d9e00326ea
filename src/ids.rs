//! Fresh random identifiers.
use vstd::prelude::*;

verus! {

/// A version 4 (random) UUID of the RFC 4122 variant, read as a big-endian `u128`:
/// the version nibble is 4 and the two variant bits are `10`.
pub open spec fn is_random_uuid(id: u128) -> bool {
    (id >> 76u128) & 0xfu128 == 4 && (id >> 62u128) & 0x3u128 == 2
}

/// Relies on uuid::Uuid::new_v4 (and `as_u128`): random bytes with the version set to 4
/// and the variant set to RFC 4122.
#[verifier::external_body]
pub(crate) fn new_random_id() -> (r: u128)
    ensures
        is_random_uuid(r),
{
    uuid::Uuid::new_v4().as_u128()
}

} // verus!
