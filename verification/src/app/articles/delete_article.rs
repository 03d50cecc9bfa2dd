//! Only its author may change or delete an article.
use vstd::prelude::*;
use crate::auth::is_auth;
use crate::error::{Error, ErrorKindAuth};
use crate::mdl::User;

verus! {

/// `Ok` when the user wrote the article, `Forbidden` otherwise.
pub fn check_author(author_id: i32, user: &User) -> (res: Result<(), Error>)
    ensures
        res is Ok <==> author_id == user.id,
        res matches Err(e) ==> is_auth(e, ErrorKindAuth::Forbidden),
{
    if author_id != user.id {
        return Err(Error::from(ErrorKindAuth::Forbidden));
    }
    Ok(())
}

} // verus!
