//! A person's name, in parts and in full.

use vstd::prelude::*;
use vstd::string::StringExecFns;

verus! {

/// A person's name in parts. The middle name may be absent.
pub struct Person {
    pub first: String,
    pub middle: Option<String>,
    pub last: String,
}

/// What a [`Person`] holds, as sequences of characters.
pub struct PersonView {
    pub first: Seq<char>,
    pub middle: Option<Seq<char>>,
    pub last: Seq<char>,
}

impl PersonView {
    /// The full name: the first name, one space, then the middle name and
    /// one more space where there is a middle name, then the last name.
    pub open spec fn full_name(self) -> Seq<char> {
        match self.middle {
            Some(middle) => self.first + seq![' '] + middle + seq![' '] + self.last,
            None => self.first + seq![' '] + self.last,
        }
    }
}

impl View for Person {
    type V = PersonView;

    open spec fn view(&self) -> PersonView {
        PersonView {
            first: self.first@,
            middle: match self.middle {
                Some(middle) => Some(middle@),
                None => None,
            },
            last: self.last@,
        }
    }
}

/// Assembles the full name of `person`, its parts separated by single spaces.
///
/// An absent middle name leaves no gap: first and last name are then one
/// space apart. Parts are taken as they are, empty ones included.
pub fn build_full_name(person: &Person) -> (full_name: String)
    ensures
        full_name@ == person@.full_name(),
{
    let mut full_name = String::new();
    full_name.append(person.first.as_str());
    full_name.append(" ");
    match &person.middle {
        Some(middle) => {
            full_name.append(middle.as_str());
            full_name.append(" ");
        },
        None => (),
    }
    full_name.append(person.last.as_str());
    proof {
        reveal_strlit(" ");
        assert(" "@ =~= seq![' ']);
    }
    full_name
}

} // verus!
