//! Fresh identifiers for registrations and question codes.

use vstd::prelude::*;

verus! {

/// Relies on uuid's `Uuid::new_v4` and its hyphenated rendering: a fresh
/// random identifier. The value depends on the generator; only its length
/// (36 characters) is fixed by the format.
#[verifier::external_body]
pub fn new_uuid() -> (r: String)
    ensures
        r@.len() == 36,
{
    uuid::Uuid::new_v4().to_string()
}

} // verus!
