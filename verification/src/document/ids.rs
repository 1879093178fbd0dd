use vstd::prelude::*;

verus! {

/// Bits of a UUID that hold its version (4 bits) and its variant (2 bits).
pub const UUID_VERSION_VARIANT_MASK: u128 = 0xF000_C000_0000_0000_0000u128;

/// The value of those bits in a random (version 4, RFC 4122 variant) UUID.
pub const UUID_V4_MARKER: u128 = 0x4000_8000_0000_0000_0000u128;

/// Calls `uuid::Uuid::new_v4` and returns the identifier as a `u128`
/// (`Uuid::as_u128`). The identifier is random: nothing is promised of it but
/// that the crate sets the version nibble to 4 and the variant bits to `10`,
/// which its source does by masking the random number and or-ing in the
/// marker bits.
#[verifier::external_body]
pub(crate) fn random_uuid_v4() -> (id: u128)
    ensures
        id & UUID_VERSION_VARIANT_MASK == UUID_V4_MARKER,
{
    uuid::Uuid::new_v4().as_u128()
}

} // verus!
