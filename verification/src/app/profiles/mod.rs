//! Profiles, and following and unfollowing users.
use vstd::prelude::*;
use crate::app::users::authenticate::is_validation;
use crate::app::res::{Profile, profile_of};
use crate::error::{Error, validation_error};
use crate::mdl::{NewFollower, User};

verus! {

/// The path of a profile request: `/profiles/{username}`.
#[derive(Debug, Clone)]
pub struct ProfilePath {
    pub username: String,
}

/// The follower record for `follower_id` following `user`; nobody may follow
/// themselves.
pub fn new_follower(user: &User, follower_id: i32) -> (res: Result<NewFollower, Error>)
    ensures
        res is Ok <==> user.id != follower_id,
        res matches Ok(f) ==> f.user_id == user.id && f.follower_id == follower_id,
        res matches Err(e) ==> is_validation(e, "You cannot follow yourself"@),
{
    if user.id == follower_id {
        return Err(validation_error("You cannot follow yourself"));
    }
    Ok(NewFollower { user_id: user.id, follower_id })
}

/// The profile of a user the reader has just followed.
pub fn followed_profile(user: User) -> (p: Profile)
    ensures
        p@ == profile_of(user, true),
{
    Profile::from_user(user, true)
}

/// The profile of a user the reader has just unfollowed.
pub fn unfollowed_profile(user: User) -> (p: Profile)
    ensures
        p@ == profile_of(user, false),
{
    Profile::from_user(user, false)
}

/// The profile of `user` for a reader: `following` tells whether a signed-in
/// reader follows the user, and is `None` for an anonymous reader.
pub fn profile_for_reader(user: User, following: Option<bool>) -> (p: Profile)
    ensures
        p@ == profile_of(user, following == Some(true)),
{
    let f = match following {
        Some(b) => b,
        None => false,
    };
    Profile::from_user(user, f)
}

} // verus!
