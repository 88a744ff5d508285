//! The user record shared by the lookup examples in `consume` and
//! `error_type`.

use vstd::prelude::*;

verus! {

/// A user with an id and a name; the fields stay private and are read
/// through accessors.
#[derive(Debug, PartialEq)]
pub struct User {
    id: u64,
    name: String,
}

impl User {
    /// The user's id, at the specification level.
    pub closed spec fn spec_id(&self) -> u64 {
        self.id
    }

    /// The user's name, at the specification level.
    pub closed spec fn spec_name(&self) -> Seq<char> {
        self.name@
    }

    pub fn id(&self) -> (r: u64)
        ensures
            r == self.spec_id(),
    {
        self.id
    }

    pub fn name(&self) -> (r: String)
        ensures
            r@ == self.spec_name(),
    {
        self.name.clone()
    }

    pub fn new(uid: u64, uname: &str) -> (r: User)
        ensures
            r.spec_id() == uid,
            r.spec_name() == uname@,
    {
        User { id: uid, name: uname.to_owned() }
    }
}

} // verus!
