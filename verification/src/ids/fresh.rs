//! Freshly drawn random identifiers, kept apart so that the random draw is
//! the only way to make one.

use vstd::prelude::*;

use super::is_random_uuid;

verus! {

/// A freshly drawn random identifier. Its field is private to this module,
/// and the draw from the random source below is the only code that builds
/// one, so no value of this type was ever written down. The module holds
/// nothing else that could build one: only reading the value.
#[derive(Debug)]
pub struct FreshId {
    id: u128,
}

/// Draws a random UUID with `uuid::Uuid::new_v4`: random bits, with the
/// version and variant bits set as RFC 9562 prescribes for version 4.
/// Nothing else is known of the value.
#[verifier::external_body]
pub(crate) fn new_random_id() -> (fresh: FreshId)
    ensures
        is_random_uuid(fresh.value()),
{
    FreshId { id: uuid::Uuid::new_v4().as_u128() }
}

impl FreshId {
    /// The identifier as a 128-bit integer.
    pub closed spec fn value(&self) -> u128 {
        self.id
    }

    pub fn get(&self) -> (id: u128)
        ensures
            id == self.value(),
    {
        self.id
    }
}

} // verus!
