//! What registering a user stores: the user, without bio or image, and a
//! hash of the password.
use vstd::prelude::*;
use super::SignupUser;
use crate::error::Error;
use crate::mdl::NewUser;
use crate::password::{CanHashPassword, HashedPassword};

verus! {

/// The user record a sign-up form registers.
pub fn new_user(form: &SignupUser) -> (user: NewUser)
    ensures
        user.username == form.username,
        user.email == form.email,
        user.bio is None,
        user.image is None,
{
    NewUser {
        username: form.username.clone(),
        email: form.email.clone(),
        bio: None,
        image: None,
    }
}

/// The user record and the password hash a sign-up form registers; the
/// password is hashed by `hasher`, and a failure to hash is returned as it is.
pub fn registration<H: CanHashPassword>(hasher: &H, form: &SignupUser) -> (res: Result<(NewUser, HashedPassword), Error>)
    ensures
        res matches Ok((user, hash)) ==> {
            &&& user.username == form.username
            &&& user.email == form.email
            &&& user.bio is None
            &&& user.image is None
            &&& hasher.makes_hash(form.password@, hash.0@)
        },
{
    let user = new_user(form);
    match hasher.hash_password(form.password.as_str()) {
        Ok(hash) => Ok((user, hash)),
        Err(e) => Err(e),
    }
}

} // verus!
