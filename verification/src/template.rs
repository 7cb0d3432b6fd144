use vstd::prelude::*;

verus! {

/// The sample function that new platform functions are generated from:
/// the sum of its two arguments.
pub fn add(x: i32, y: i32) -> (sum: i32)
    requires
        i32::MIN <= x + y <= i32::MAX,
    ensures
        sum == x + y,
{
    x + y
}

} // verus!
