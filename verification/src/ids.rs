//! Random identifiers for holds, ledger entries, notifications and payouts.
use vstd::prelude::*;

verus! {

/// Whether `id` carries the version-4 and RFC 4122 variant bits of a random UUID.
pub open spec fn is_random_uuid(id: u128) -> bool {
    id & 0xF000_C000_0000_0000_0000u128 == 0x4000_8000_0000_0000_0000u128
}

/// `uuid::Uuid::new_v4()` as its 128-bit value. The value is random; the source
/// sets the version nibble to 4 and the variant bits to `10`, and that is all that
/// holds of every outcome.
#[verifier::external_body]
pub(crate) fn new_random_id() -> (id: u128)
    ensures
        is_random_uuid(id),
{
    uuid::Uuid::new_v4().as_u128()
}

} // verus!
