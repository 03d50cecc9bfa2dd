//! Signing in: the user with the given email is let in when the password
//! matches the stored hash.
use vstd::prelude::*;
use super::SigninUser;
use crate::error::{Error, ErrorKind, validation_error};
use crate::mdl::{Credential, User};
use crate::password::CanCheckPassword;

verus! {

/// Whether the error is the single validation message.
pub open spec fn is_validation(e: Error, msg: Seq<char>) -> bool {
    e.kind matches ErrorKind::Validation(msgs) && msgs@.len() == 1 && msgs@[0]@ == msg
}

/// Signs in with the form, given the user with the form's email and that
/// user's stored credential, if there is such a user. The user is let in
/// exactly when `checker` accepts the password for the stored hash;
/// otherwise the answer is the same for an unknown email and for a wrong
/// password.
pub fn authenticate<C: CanCheckPassword>(
    checker: &C,
    form: &SigninUser,
    found: Option<(User, Credential)>,
) -> (res: Result<User, Error>)
    ensures
        res is Ok <==> (found matches Some((_, cred)) && checker.accepts(form.password@, cred.password_hash@)),
        res matches Ok(user) ==> found matches Some((u, _)) && user == u,
        res matches Err(e) ==> is_validation(e, "email or password is invalid"@),
{
    if let Some((user, cred)) = found {
        if checker.is_correct_password(form.password.as_str(), cred.password_hash.as_str()) {
            return Ok(user);
        }
    }
    Err(validation_error("email or password is invalid"))
}

} // verus!
