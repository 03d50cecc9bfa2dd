//! Changing an article: only its author may, a new title gives a new slug,
//! and the tags are replaced by the given ones (none when none are given).
use vstd::prelude::*;
use super::ArticleChange;
use super::delete_article::check_author;
use super::slugify::CanSlugify;
use crate::auth::is_auth;
use crate::error::{Error, ErrorKindAuth};
use crate::mdl::{self, Article, User};

verus! {

/// What changing the article writes: its new tags and its changed columns.
/// Only the author may change it; a new title gets a slug that `slugifier`
/// makes for it.
pub fn plan_article_update<S: CanSlugify>(slugifier: &S, user: &User, article: &Article, change: ArticleChange)
    -> (res: Result<(Vec<String>, mdl::ArticleChange), Error>)
    ensures
        res is Ok <==> article.author_id == user.id,
        res matches Err(e) ==> is_auth(e, ErrorKindAuth::Forbidden),
        res matches Ok((tags, cols)) ==> {
            &&& (change.tag_list matches Some(t) ==> tags == t)
            &&& (change.tag_list is None ==> tags@.len() == 0)
            &&& (cols.slug is Some <==> change.title is Some)
            &&& (cols.slug matches Some(s) ==> slugifier.makes_slug(s@, change.title->0@))
            &&& cols.title == change.title
            &&& cols.description == change.description
            &&& cols.body == change.body
        },
{
    match check_author(article.author_id, user) {
        Ok(()) => {},
        Err(e) => return Err(e),
    }
    let tags = match change.tag_list {
        Some(t) => t,
        None => Vec::new(),
    };
    let slug = match &change.title {
        Some(t) => Some(slugifier.slugify(t.as_str())),
        None => None,
    };
    let cols = mdl::ArticleChange {
        slug,
        title: change.title,
        description: change.description,
        body: change.body,
    };
    Ok((tags, cols))
}

} // verus!
