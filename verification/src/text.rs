//! Comparing text.

use vstd::prelude::*;

verus! {

/// Whether two pieces of text are the same, character by character.
pub fn same_text(a: &str, b: &str) -> (same: bool)
    ensures
        same == (a@ == b@),
{
    a.to_owned() == b.to_owned()
}

} // verus!
