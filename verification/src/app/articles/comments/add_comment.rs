//! Adding a comment: it is stored under the article and its author, and
//! shown to the author without a follow.
use vstd::prelude::*;
use super::NewComment;
use crate::app::res::{self, profile_of};
use crate::mdl::{self, User};

verus! {

/// The record a comment on the article is stored as.
pub fn new_comment_record(article_id: i32, author: &User, comment: NewComment) -> (record: mdl::NewComment)
    ensures
        record.article_id == article_id,
        record.user_id == author.id,
        record.body == comment.body,
{
    mdl::NewComment { article_id, user_id: author.id, body: comment.body }
}

/// A newly stored comment as its author sees it.
pub fn added_comment(comment: mdl::Comment, author: User) -> (shown: res::Comment)
    ensures
        shown@.id == comment.id,
        shown@.created_at == comment.created_at,
        shown@.updated_at == comment.updated_at,
        shown@.body == comment.body@,
        shown@.author@ == profile_of(author, false),
{
    res::Comment::new(comment, res::Profile::from_user(author, false))
}

} // verus!
