//! A `u32` is copied into the function that takes it.

use vstd::prelude::*;

verus! {

/// Takes a copy of `input`; the caller's value stays usable.
#[allow(unused_variables)]
pub fn process(input: u32) {
}

/// Hands the same number to [`process`] twice: each call gets a copy.
pub fn caller() {
    let n: u32 = 1u32;
    process(n);
    process(n);
}

} // verus!
