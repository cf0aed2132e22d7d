use vstd::prelude::*;

verus! {

/// Whether the running executable supports the decimal API. It always does.
pub fn has_decimal() -> (r: bool)
    ensures
        r,
{
    true
}

} // verus!
