//! Signing up, signing in and changing one's account.
pub mod authenticate;
pub mod register_user;
pub mod update_user;
pub mod validate_signup;

use vstd::prelude::*;

verus! {

/// The envelope of a user request: `{"user": ...}`.
#[derive(Debug)]
pub struct In<U> {
    pub user: U,
}

/// A sign-up form.
#[derive(Debug, Clone)]
pub struct SignupUser {
    pub username: String,
    pub email: String,
    pub password: String,
}

/// A sign-in form.
#[derive(Debug, Clone)]
pub struct SigninUser {
    pub email: String,
    pub password: String,
}

/// An account change form; an absent field leaves the account as it is.
#[derive(Debug, Clone)]
pub struct UserChange {
    pub email: Option<String>,
    pub username: Option<String>,
    pub bio: Option<String>,
    pub image: Option<String>,
    pub password: Option<String>,
}

/// The change an account form asks for. Bio and image are always written as
/// given, so that leaving them out of the form clears them; the password is
/// changed only when one is given.
pub fn user_changes_from_form(form: UserChange) -> (changes: update_user::UserChanges)
    ensures
        changes.user.username == form.username,
        changes.user.email == form.email,
        changes.user.bio == Some(form.bio),
        changes.user.image == Some(form.image),
        changes.new_password == form.password,
{
    update_user::UserChanges {
        user: crate::mdl::UserChange {
            username: form.username,
            email: form.email,
            bio: Some(form.bio),
            image: Some(form.image),
        },
        new_password: form.password,
    }
}

} // verus!
