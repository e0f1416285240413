use vstd::prelude::*;

verus! {

/// Adds two to `x`.
pub fn add_two(x: i32) -> (r: i32)
    requires
        x + 2 <= i32::MAX,
    ensures
        r == x + 2,
{
    x + 2
}

} // verus!
