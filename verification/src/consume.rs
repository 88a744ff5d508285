//! Looking a user up by id, with the outcome of every id pinned down: low
//! ids fail outright, a middle band exists, id 11 is off limits, and
//! everything above the band is absent.

use vstd::prelude::*;
use crate::common::User;
use crate::decimal::decimal_chars;

verus! {

/// The lookup's own error.
#[derive(Debug, PartialEq)]
pub struct FindUserError {
    pub message: String,
}

/// The error the wrapped lookups collapse everything into.
#[derive(Debug, PartialEq)]
pub struct CommonError {
    pub message: String,
}

/// The message a failing low-id lookup carries.
pub open spec fn find_error_message(uid: u64) -> Seq<char> {
    "Find user error. User id "@ + decimal_chars(uid as nat)
}

/// The name the lookup gives a found user.
pub open spec fn found_name(uid: u64) -> Seq<char> {
    "user name "@ + decimal_chars(uid as nat)
}

/// Looks a user up: ids below 10 fail, ids 10 through 19 are found with a
/// derived name, higher ids are absent.
pub fn find_user(uid: u64) -> (r: Result<Option<User>, FindUserError>)
    ensures
        uid < 10 ==> (r matches Err(e) && e.message@ == find_error_message(uid)),
        10 <= uid < 20 ==> (r matches Ok(o) && o matches Some(u) && u.spec_id() == uid
            && u.spec_name() == found_name(uid)),
        uid >= 20 ==> r == Ok::<Option<User>, FindUserError>(None),
{
    if uid < 10 {
        let mut message = "Find user error. User id ".to_owned();
        let digits = crate::decimal::u64_to_string(uid);
        message.append(digits.as_str());
        Err(FindUserError { message })
    } else if uid < 20 {
        let mut uname = "user name ".to_owned();
        let digits = crate::decimal::u64_to_string(uid);
        uname.append(digits.as_str());
        let user = User::new(uid, uname.as_str());
        Ok(Some(user))
    } else {
        Ok(None)
    }
}

/// Wraps `find_user`, collapsing every failure into `CommonError`: a low
/// id keeps the lookup's message, an absent user reads `User not found`,
/// and id 11 is refused with `Access denied`.
pub fn find_user3(uid: u64) -> (r: Result<User, CommonError>)
    ensures
        uid < 10 ==> (r matches Err(e) && e.message@ == find_error_message(uid)),
        uid >= 20 ==> (r matches Err(e) && e.message@ == "User not found"@),
        uid == 11 ==> (r matches Err(e) && e.message@ == "Access denied"@),
        (10 <= uid < 20 && uid != 11) ==> (r matches Ok(u) && u.spec_id() == uid && u.spec_name()
            == found_name(uid)),
{
    match find_user(uid) {
        Err(e) => Err(CommonError { message: e.message }),
        Ok(None) => Err(CommonError { message: "User not found".to_owned() }),
        Ok(Some(user)) => {
            if user.id() == 11 {
                Err(CommonError { message: "Access denied".to_owned() })
            } else {
                Ok(user)
            }
        },
    }
}

/// The same wrapping as `find_user3`, written with explicit tests on the
/// intermediate result rather than one match.
pub fn find_user2(uid: u64) -> (r: Result<User, CommonError>)
    ensures
        uid < 10 ==> (r matches Err(e) && e.message@ == find_error_message(uid)),
        uid >= 20 ==> (r matches Err(e) && e.message@ == "User not found"@),
        uid == 11 ==> (r matches Err(e) && e.message@ == "Access denied"@),
        (10 <= uid < 20 && uid != 11) ==> (r matches Ok(u) && u.spec_id() == uid && u.spec_name()
            == found_name(uid)),
{
    let found = find_user(uid);
    if let Ok(Some(user)) = found {
        if user.id() == 11 {
            let err = CommonError { message: "Access denied".to_owned() };
            Err(err)
        } else {
            Ok(user)
        }
    } else if let Ok(None) = found {
        let err = CommonError { message: "User not found".to_owned() };
        Err(err)
    } else {
        let err = CommonError { message: found.unwrap_err().message };
        Err(err)
    }
}

} // verus!
