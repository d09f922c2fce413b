//! Identifiers of channels and of sessions: 128 bits, drawn at random.

use vstd::prelude::*;

verus! {

/// The bits of an identifier that say how it was made: the version field
/// and the two highest bits of the variant field.
pub const STAMP_MASK: u128 = 0x0000_0000_0000_f000_c000_0000_0000_0000;

/// What those bits hold in an identifier drawn at random: version 4 in the
/// version field, and the variant of RFC 4122.
pub const RANDOM_STAMP: u128 = 0x0000_0000_0000_4000_8000_0000_0000_0000;

/// Whether the identifier is marked as drawn at random.
pub open spec fn is_random(id: u128) -> bool {
    id & STAMP_MASK == RANDOM_STAMP
}

/// `uuid::Uuid::new_v4` draws 128 bits from the operating system and stamps
/// the version and the variant on them; `as_u128` packs the sixteen bytes,
/// first byte highest. Which identifier comes out is not known; that it
/// carries the stamp is.
#[verifier::external_body]
pub(crate) fn random_identifier() -> (id: u128)
    ensures
        is_random(id),
{
    uuid::Uuid::new_v4().as_u128()
}

} // verus!
