//! Fresh opaque identifiers: engine auth tokens, idempotency keys, and
//! temporary directory names all use one random 128-bit identifier.

use vstd::prelude::*;

verus! {

/// Relies on `uuid::Uuid::new_v4` and its hyphenated `to_string` rendering:
/// a fresh random 128-bit identifier, printed as 36 characters. Nothing is
/// promised about the value itself.
#[verifier::external_body]
pub fn fresh_uuid() -> (r: String)
    ensures
        r@.len() == 36,
{
    uuid::Uuid::new_v4().to_string()
}

} // verus!
