//! Defaults for fields a request left out.

use vstd::prelude::*;

verus! {

/// The default for a text field that was absent: the empty string.
pub fn default_empty_to_string() -> (r: String)
    ensures
        r@ == Seq::<char>::empty(),
{
    String::new()
}

} // verus!
