//! Functions that change a value through an exclusive borrow.

use vstd::prelude::*;
use vstd::string::StringExecFns;

verus! {

/// Appends `", world"` to `text`, in place.
pub fn change(text: &mut String)
    ensures
        final(text)@ == old(text)@ + ", world"@,
{
    text.append(", world");
}

/// Appends a copy of `value` to `vector` and returns a shared view of the
/// element just appended.
///
/// What the vector held before stays where it was; the new element comes
/// last. The view borrows from `vector` for as long as the exclusive borrow
/// handed in: until the view is given up, the vector can neither change nor
/// go away.
pub fn copy_and_return<'a>(vector: &'a mut Vec<String>, value: &str) -> (appended: &'a str)
    ensures
        final(vector)@.len() == old(vector)@.len() + 1,
        final(vector)@.drop_last() == old(vector)@,
        final(vector)@.last()@ == value@,
        appended@ == final(vector)@.last()@,
        appended@ == value@,
{
    vector.push(value.to_owned());
    assert(vector@.drop_last() =~= old(vector)@);
    let last: usize = vector.len() - 1;
    vector[last].as_str()
}

} // verus!
