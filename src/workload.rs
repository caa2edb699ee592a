//! Helpers of the demonstration worker tasks.

use vstd::prelude::*;

verus! {

/// Compares two numbers and returns the comparison with their difference.
pub fn ge(a: isize, b: isize) -> (r: (bool, isize))
    requires
        isize::MIN <= a - b <= isize::MAX,
    ensures
        r == ((a >= b), (a - b) as isize),
{
    let diff = a - b;
    let ge = a >= b;
    (ge, diff)
}

/// Recurses from depth `i` down to depth `d`, spending a short busy wait
/// and a stack slot on each level, and returns the depth reached: `d` when
/// `i < d`, else `i`.
pub fn fill_stack(i: u64, d: u64) -> (r: u64)
    ensures
        r == if i < d {
            d
        } else {
            i
        },
    decreases d - i,
{
    let slice: [u64; 1] = [0xdeadbeef; 1];
    let _first = slice[0];
    let mut j: u32 = 1000;
    while j > 0
        decreases j,
    {
        j -= 1;
    }
    if i < d {
        fill_stack(i + 1, d)
    } else {
        i
    }
}

} // verus!
