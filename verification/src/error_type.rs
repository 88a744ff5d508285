//! The same lookup as `consume`, but with a structured error: the wrapped
//! error keeps the cause as its own variant instead of a flat message.

use vstd::prelude::*;
use crate::common::User;
use crate::consume::{find_error_message, found_name};

verus! {

/// The lookup's own error.
#[derive(Debug, PartialEq)]
pub struct FindUserError {
    pub message: String,
}

/// The structured error of the wrapped lookup.
#[derive(Debug, PartialEq)]
pub enum CommonError {
    Find(FindUserError),
    UserNotExists(String),
    AccessDenied,
}

/// The message `e_find_user2` gives an absent user.
pub open spec fn not_exists_message(uid: u64) -> Seq<char> {
    "User with id "@ + crate::decimal::decimal_chars(uid as nat) + " not found"@
}

/// Looks a user up: ids below 10 fail, ids 10 through 19 are found with a
/// derived name, higher ids are absent.
pub fn e_find_user(uid: u64) -> (r: Result<Option<User>, FindUserError>)
    ensures
        uid < 10 ==> (r matches Err(e) && e.message@ == find_error_message(uid)),
        10 <= uid < 20 ==> (r matches Ok(o) && o matches Some(u) && u.spec_id() == uid
            && u.spec_name() == found_name(uid)),
        uid >= 20 ==> r == Ok::<Option<User>, FindUserError>(None),
{
    if uid < 10 {
        let mut message = "Find user error. User id ".to_owned();
        let digits = crate::decimal::u64_to_string(uid);
        message.append(digits.as_str());
        Err(FindUserError { message })
    } else if uid < 20 {
        let mut uname = "user name ".to_owned();
        let digits = crate::decimal::u64_to_string(uid);
        uname.append(digits.as_str());
        let user = User::new(uid, uname.as_str());
        Ok(Some(user))
    } else {
        Ok(None)
    }
}

/// Wraps `e_find_user`, keeping each failure's cause: the lookup error is
/// wrapped whole, an absent user names the id it asked for, and id 11 is
/// refused outright.
pub fn e_find_user2(uid: u64) -> (r: Result<User, CommonError>)
    ensures
        uid < 10 ==> (r matches Err(e) && e matches CommonError::Find(f) && f.message@
            == find_error_message(uid)),
        uid >= 20 ==> (r matches Err(e) && e matches CommonError::UserNotExists(m) && m@
            == not_exists_message(uid)),
        uid == 11 ==> r == Err::<User, CommonError>(CommonError::AccessDenied),
        (10 <= uid < 20 && uid != 11) ==> (r matches Ok(u) && u.spec_id() == uid && u.spec_name()
            == found_name(uid)),
{
    match e_find_user(uid) {
        Err(e) => Err(CommonError::Find(e)),
        Ok(None) => {
            let mut message = "User with id ".to_owned();
            let digits = crate::decimal::u64_to_string(uid);
            message.append(digits.as_str());
            message.append(" not found");
            Err(CommonError::UserNotExists(message))
        },
        Ok(Some(user)) => {
            if user.id() == 11 {
                Err(CommonError::AccessDenied)
            } else {
                Ok(user)
            }
        },
    }
}

} // verus!
