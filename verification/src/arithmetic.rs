//! Integer helpers.

use vstd::prelude::*;

verus! {

/// Divides `num` by five, discarding the remainder.
///
/// Zero is answered at once, without dividing.
pub fn divide_by_5(num: u32) -> (quotient: u32)
    ensures
        quotient == num / 5,
        5 * quotient <= num < 5 * quotient + 5,
{
    if num == 0 {
        return 0;
    }
    num / 5
}

} // verus!
