//! A `String` is moved into the function that takes it.

use vstd::prelude::*;

verus! {

/// Takes ownership of `input` and releases it on return.
#[allow(unused_variables)]
pub fn process(input: String) {
}

/// Builds a greeting and moves it into [`process`]; after the call the
/// binding no longer holds a value.
pub fn caller() {
    let s = "Hello, world!".to_owned();
    process(s);
}

} // verus!
