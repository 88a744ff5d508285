//! Record types of the users store: the validated payload, the record
//! itself, the store error, and the small request-side types.

use vstd::prelude::*;

verus! {

/// The user-supplied, validated portion of a record.
#[derive(Debug, PartialEq)]
pub struct UserFields {
    pub name: String,
}

impl Clone for UserFields {
    fn clone(&self) -> (r: Self)
        ensures
            r == *self,
    {
        UserFields { name: self.name.clone() }
    }
}

/// The bare name payload in its wire-side shape, where the name sits
/// beside the id rather than nested under it.
#[derive(Debug, PartialEq)]
pub struct UserName {
    pub name: String,
}

impl Clone for UserName {
    fn clone(&self) -> (r: Self)
        ensures
            r == *self,
    {
        UserName { name: self.name.clone() }
    }
}

/// A record of the store: a store-assigned id plus the validated payload.
#[derive(Debug, PartialEq)]
pub struct User {
    pub id: u64,
    pub fields: UserFields,
}

impl Clone for User {
    fn clone(&self) -> (r: Self)
        ensures
            r == *self,
    {
        User { id: self.id, fields: self.fields.clone() }
    }
}

/// The error a store operation returns; the message says which failure
/// occurred.
#[derive(Debug, PartialEq)]
pub struct UserDAOError {
    pub message: String,
}

impl Clone for UserDAOError {
    fn clone(&self) -> (r: Self)
        ensures
            r == *self,
    {
        UserDAOError { message: self.message.clone() }
    }
}

/// Candidate fields for a record that does not exist yet.
#[derive(Debug, PartialEq)]
pub struct NewUser {
    pub name: String,
}

/// Optional paging bounds as they arrive from a caller.
#[derive(Debug, PartialEq)]
pub struct Pagination {
    pub page_no: Option<u64>,
    pub page_size: Option<u64>,
}

impl Pagination {
    /// The effective page number and page size: absent values fall back
    /// to page zero and ten records per page.
    pub fn limits(&self) -> (r: (u64, u64))
        ensures
            r.0 == (match self.page_no {
                Some(n) => n,
                None => 0u64,
            }),
            r.1 == (match self.page_size {
                Some(n) => n,
                None => 10u64,
            }),
    {
        let page_no = match self.page_no {
            Some(n) => n,
            None => 0,
        };
        let page_size = match self.page_size {
            Some(n) => n,
            None => 10,
        };
        (page_no, page_size)
    }
}

/// The body of a not-found reply: the id that was asked for and a fixed
/// message.
#[derive(Debug, PartialEq)]
pub struct UserNotFoundError {
    pub id: u64,
    pub message: String,
}

impl UserNotFoundError {
    pub fn new(user_id: u64) -> (r: UserNotFoundError)
        ensures
            r.id == user_id,
            r.message@ == "User not found"@,
    {
        UserNotFoundError { id: user_id, message: "User not found".to_owned() }
    }
}

} // verus!
