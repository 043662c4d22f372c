//! Values that chance decides: packet ids, node ids, session ids.

use vstd::prelude::*;

verus! {

/// A random 32-bit number from `rand::random`. Trusted, and nothing is
/// claimed of the value.
#[verifier::external_body]
pub(crate) fn random_u32() -> (n: u32) {
    rand::random::<u32>()
}

/// The text of a fresh version-4 UUID from `uuid::Uuid::new_v4`. Trusted,
/// and nothing is claimed of the value.
#[verifier::external_body]
pub(crate) fn random_uuid() -> (id: String) {
    uuid::Uuid::new_v4().to_string()
}

} // verus!
