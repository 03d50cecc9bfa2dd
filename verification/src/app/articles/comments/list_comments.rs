//! Listing the comments of an article, each with its author's profile.
use vstd::prelude::*;
use std::collections::HashSet;
use crate::app::res::{self, profile_of};
use crate::mdl::{Comment, User};

verus! {

broadcast use vstd::std_specs::hash::group_hash_axioms;

/// The ids of the comments' authors, in list order.
pub fn comment_author_ids(comments: &Vec<(Comment, User)>) -> (ids: Vec<i32>)
    ensures
        ids@.len() == comments@.len(),
        forall|i: int| 0 <= i < comments@.len() ==> ids@[i] == (#[trigger] comments@[i]).1.id,
{
    let mut ids: Vec<i32> = Vec::new();
    let n = comments.len();
    let mut i: usize = 0;
    while i < n
        invariant
            n == comments@.len(),
            i <= n,
            ids@.len() == i,
            forall|j: int| 0 <= j < i ==> ids@[j] == (#[trigger] comments@[j]).1.id,
        decreases n - i,
    {
        ids.push(comments[i].1.id);
        i = i + 1;
    }
    ids
}

/// Whether the reader follows the author: `followings` holds the authors a
/// signed-in reader follows, and is `None` for an anonymous reader.
pub open spec fn follows(followings: Option<HashSet<i32>>, author_id: i32) -> bool {
    match followings {
        Some(f) => f@.contains(author_id),
        None => false,
    }
}

/// Whether the shown comment shows the stored one with this author profile.
pub open spec fn shows_comment(shown: res::Comment, comment: Comment, author: res::ProfileView) -> bool {
    &&& shown@.id == comment.id
    &&& shown@.created_at == comment.created_at
    &&& shown@.updated_at == comment.updated_at
    &&& shown@.body == comment.body@
    &&& shown@.author@ == author
}

/// The comments shown to a reader, in the same order, each with its
/// author's profile.
pub fn build_comment_list(comments: Vec<(Comment, User)>, followings: &Option<HashSet<i32>>) -> (list: Vec<res::Comment>)
    ensures
        list@.len() == comments@.len(),
        forall|i: int| 0 <= i < comments@.len() ==> shows_comment(
            #[trigger] list@[i],
            comments@[i].0,
            profile_of(comments@[i].1, follows(*followings, comments@[i].1.id)),
        ),
{
    let ghost orig = comments@;
    let mut comments = comments;
    let mut list: Vec<res::Comment> = Vec::new();
    let n = comments.len();
    let mut i: usize = 0;
    while i < n
        invariant
            n == orig.len(),
            i <= n,
            comments@ == orig.subrange(i as int, n as int),
            list@.len() == i,
            forall|j: int| 0 <= j < i ==> shows_comment(
                #[trigger] list@[j],
                orig[j].0,
                profile_of(orig[j].1, follows(*followings, orig[j].1.id)),
            ),
        decreases n - i,
    {
        let (comment, user) = comments.remove(0);
        proof {
            assert(orig[i as int] == (comment, user));
        }
        let following = match followings {
            Some(f) => f.contains(&user.id),
            None => false,
        };
        let author = res::Profile::from_user(user, following);
        list.push(res::Comment::new(comment, author));
        i = i + 1;
    }
    list
}

} // verus!
