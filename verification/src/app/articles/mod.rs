//! Publishing, reading, changing and listing articles.
pub mod build_article_list;
pub mod comments;
pub mod create_article;
pub mod delete_article;
pub mod feed_articles;
pub mod get_article;
pub mod list_articles;
pub mod slugify;
pub mod update_article;

use vstd::prelude::*;

verus! {

/// The envelope of an article request: `{"article": ...}`.
#[derive(Debug)]
pub struct In<T> {
    pub article: T,
}

/// An article to be published, as the author writes it.
#[derive(Debug, Clone)]
pub struct NewArticle {
    pub title: String,
    pub description: String,
    pub body: String,
    pub tag_list: Vec<String>,
}

/// A change of an article; an absent field leaves it as it is.
#[derive(Debug, Clone)]
pub struct ArticleChange {
    pub title: Option<String>,
    pub description: Option<String>,
    pub body: Option<String>,
    pub tag_list: Option<Vec<String>>,
}

} // verus!
