//! Changing an account: only the columns that really change are written, and
//! a new password is stored as a hash.
use vstd::prelude::*;
use crate::app::res::opt_view;
use crate::db::if_changed;
use crate::error::Error;
use crate::mdl::{User, UserChange};
use crate::password::{CanHashPassword, HashedPassword};

verus! {

/// A change of an account: the columns to write and a new password, if any.
#[derive(Debug, Clone)]
pub struct UserChanges {
    pub user: UserChange,
    pub new_password: Option<String>,
}

/// The new text when it is given and differs from the old one.
pub open spec fn text_changed(new: Option<String>, old: String) -> Option<String> {
    match new {
        Some(n) => if n@ == old@ { None } else { Some(n) },
        None => None,
    }
}

/// The new optional text when it is given and differs from the old one.
pub open spec fn opt_text_changed(new: Option<Option<String>>, old: Option<String>) -> Option<Option<String>> {
    match new {
        Some(n) => if opt_view(n) == opt_view(old) { None } else { Some(n) },
        None => None,
    }
}

/// A given column is written exactly when it differs from the stored one:
/// a username or email whose text differs, and a bio or image that differs
/// in being set or in its text, is written as given; an equal one, or one
/// not given, is left out.
pub proof fn changed_columns_are_written(old: String, n: String, old_opt: Option<String>, n_opt: Option<String>)
    ensures
        n@ != old@ ==> text_changed(Some(n), old) == Some(n),
        n@ == old@ ==> text_changed(Some(n), old) is None,
        text_changed(None, old) is None,
        opt_view(n_opt) != opt_view(old_opt) ==> opt_text_changed(Some(n_opt), old_opt) == Some(n_opt),
        opt_view(n_opt) == opt_view(old_opt) ==> opt_text_changed(Some(n_opt), old_opt) is None,
        opt_text_changed(None, old_opt) is None,
        (n_opt matches Some(a) && old_opt matches Some(b) && a@ != b@)
            ==> opt_text_changed(Some(n_opt), old_opt) == Some(n_opt),
        (n_opt is Some && old_opt is None) ==> opt_text_changed(Some(n_opt), old_opt) == Some(n_opt),
        (n_opt is None && old_opt is Some) ==> opt_text_changed(Some(n_opt), old_opt) == Some(n_opt),
{
}

/// Asking for the values an account already has writes nothing: every
/// column of the change is left out.
pub proof fn unchanged_values_write_nothing(current: User, given: UserChange)
    requires
        given.username matches Some(n) ==> n@ == current.username@,
        given.email matches Some(n) ==> n@ == current.email@,
        given.bio matches Some(n) ==> opt_view(n) == opt_view(current.bio),
        given.image matches Some(n) ==> opt_view(n) == opt_view(current.image),
    ensures
        text_changed(given.username, current.username) is None,
        text_changed(given.email, current.email) is None,
        opt_text_changed(given.bio, current.bio) is None,
        opt_text_changed(given.image, current.image) is None,
{
}

/// The columns of `current` that the given change really changes.
pub fn user_change(current: &User, given: UserChange) -> (change: UserChange)
    ensures
        change.username == text_changed(given.username, current.username),
        change.email == text_changed(given.email, current.email),
        change.bio == opt_text_changed(given.bio, current.bio),
        change.image == opt_text_changed(given.image, current.image),
{
    UserChange {
        username: if_changed(given.username, &current.username),
        email: if_changed(given.email, &current.email),
        bio: if_changed(given.bio, &current.bio),
        image: if_changed(given.image, &current.image),
    }
}

/// What changing `current` writes: the columns that really change, and the
/// hash of the new password, made by `hasher`, when one is given; a failure
/// to hash is returned as it is.
pub fn plan_user_update<H: CanHashPassword>(
    hasher: &H,
    current: &User,
    change: UserChanges,
) -> (res: Result<(UserChange, Option<HashedPassword>), Error>)
    ensures
        res matches Ok((cols, hash)) ==> {
            &&& cols.username == text_changed(change.user.username, current.username)
            &&& cols.email == text_changed(change.user.email, current.email)
            &&& cols.bio == opt_text_changed(change.user.bio, current.bio)
            &&& cols.image == opt_text_changed(change.user.image, current.image)
            &&& (hash is Some <==> change.new_password is Some)
            &&& (hash matches Some(h) ==> hasher.makes_hash(change.new_password->0@, h.0@))
        },
        res is Err ==> change.new_password is Some,
{
    let cols = user_change(current, change.user);
    let hash = match &change.new_password {
        Some(pass) => match hasher.hash_password(pass.as_str()) {
            Ok(h) => Some(h),
            Err(e) => return Err(e),
        },
        None => None,
    };
    Ok((cols, hash))
}

/// The account after the change: the stored user as the update returned it,
/// or the unchanged user when nothing was written.
pub fn updated_user(current: User, updated: Option<User>) -> (user: User)
    ensures
        user == (match updated {
            Some(u) => u,
            None => current,
        }),
{
    match updated {
        Some(u) => u,
        None => current,
    }
}

} // verus!
