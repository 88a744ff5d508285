//! A person with a first and a last name, read back as one display name.

use vstd::prelude::*;

verus! {

/// A person described by first name, last name and age.
#[derive(Debug, PartialEq)]
pub struct SimplePerson {
    pub first_name: String,
    pub last_name: String,
    pub age: u8,
}

impl SimplePerson {
    /// A one-line description of the type.
    pub fn descr() -> (r: String)
        ensures
            r@ == "Peson is a man, woman, or child."@,
    {
        "Peson is a man, woman, or child.".to_owned()
    }

    /// First and last name with a space between.
    pub fn name(&self) -> (r: String)
        ensures
            r@ == self.first_name@ + " "@ + self.last_name@,
    {
        let mut s = self.first_name.clone();
        s.append(" ");
        s.append(self.last_name.as_str());
        s
    }
}

} // verus!
