//! The first function exercises: a constant and a successor.

use vstd::prelude::*;

verus! {

/// Always five.
pub fn five() -> (r: i32)
    ensures
        r == 5,
{
    5
}

/// One more than `x`.
pub fn plus_one(x: i32) -> (r: i32)
    requires
        x < i32::MAX,
    ensures
        r == x + 1,
{
    x + 1
}

} // verus!
