//! Borrowed text whose lifetime is written out in the signature or the type.

use vstd::prelude::*;
use vstd::utf8::encode_utf8;

verus! {

/// The number of bytes that `text` takes when encoded as UTF-8.
pub open spec fn byte_len(text: Seq<char>) -> nat {
    encode_utf8(text).len()
}

/// Returns whichever of `x` and `y` is longer, counted in bytes of UTF-8.
///
/// Where both are equally long, `y` is returned. The result borrows from
/// both arguments, so it may be used only while both are alive.
pub fn longest_word<'a>(x: &'a String, y: &'a String) -> (longest: &'a String)
    ensures
        longest == (if byte_len(x@) > byte_len(y@) { x } else { y }),
        byte_len(longest@) >= byte_len(x@),
        byte_len(longest@) >= byte_len(y@),
{
    if x.as_str().as_bytes().len() > y.as_str().as_bytes().len() {
        x
    } else {
        y
    }
}

/// A span of text borrowed from a document; the document outlives it.
#[derive(Debug)]
pub struct Highlight<'document>(pub &'document str);

impl<'document> View for Highlight<'document> {
    type V = Seq<char>;

    open spec fn view(&self) -> Seq<char> {
        self.0@
    }
}

} // verus!
