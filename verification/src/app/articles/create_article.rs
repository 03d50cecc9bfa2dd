//! Publishing an article: it gets a slug from its title, and is shown with
//! no favorites to its author.
use vstd::prelude::*;
use super::NewArticle;
use super::slugify::CanSlugify;
use crate::app::res::{self, profile_of, shows_article};
use crate::mdl::{self, User};

verus! {

/// The record an author's new article is stored as, with a slug that
/// `slugifier` makes for its title, and its tags.
pub fn new_article_record<S: CanSlugify>(slugifier: &S, author: &User, article: NewArticle)
    -> (res: (mdl::NewArticle, Vec<String>))
    ensures
        res.0.author_id == author.id,
        slugifier.makes_slug(res.0.slug@, article.title@),
        res.0.title == article.title,
        res.0.description == article.description,
        res.0.body == article.body,
        res.1 == article.tag_list,
{
    let slug = slugifier.slugify(article.title.as_str());
    let record = mdl::NewArticle {
        author_id: author.id,
        slug,
        title: article.title,
        description: article.description,
        body: article.body,
    };
    (record, article.tag_list)
}

/// A newly published article as its author sees it: not followed, not
/// favorited, no favorites yet.
pub fn created_article(author: User, article: mdl::Article, tags: Vec<String>) -> (shown: res::Article)
    ensures
        shows_article(shown, article, profile_of(author, false), false, 0, tags@),
{
    res::Article::new_builder()
        .author(res::Profile::from_user(author, false))
        .article(article, 0, tags)
        .build()
}

} // verus!
