//! Reading one article: an anonymous reader sees it neither favorited nor its
//! author followed.
use vstd::prelude::*;
use crate::app::res::{self, profile_of, shows_article};
use crate::mdl::{Article, User};

verus! {

/// Whether the reader favorited the article and follows its author, from
/// the ids of the matching favorite and follower records: a record found
/// means yes.
pub fn favorite_and_following(fav_id: Option<i32>, follow_id: Option<i32>) -> (flags: (bool, bool))
    ensures
        flags == (fav_id is Some, follow_id is Some),
{
    (fav_id.is_some(), follow_id.is_some())
}

/// The article shown to a reader: `reader` holds whether the reader
/// favorited it and follows its author, and is `None` for an anonymous one.
pub fn article_for_reader(
    article: Article,
    author: User,
    favorites_count: i64,
    reader: Option<(bool, bool)>,
    tags: Vec<String>,
) -> (shown: res::Article)
    ensures
        ({
            let (favorited, following) = match reader {
                Some(flags) => flags,
                None => (false, false),
            };
            shows_article(shown, article, profile_of(author, following), favorited, favorites_count, tags@)
        }),
{
    let (favorited, author_followed) = match reader {
        Some(flags) => flags,
        None => (false, false),
    };
    res::Article::new_builder()
        .author(res::Profile::from_user(author, author_followed))
        .article(article, favorites_count, tags)
        .favorited(favorited)
        .build()
}

} // verus!
