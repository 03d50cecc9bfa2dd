//! The bodies the service answers with, and how they are built from the
//! stored records.
use vstd::prelude::*;
use crate::mdl;

verus! {

/// A user as the service shows it to that user, with the user's token.
#[derive(Debug, PartialEq)]
pub struct User {
    pub email: String,
    pub token: String,
    pub username: String,
    pub bio: Option<String>,
    pub image: Option<String>,
}

impl User {
    /// The user record shown with the given token.
    pub fn from_model(token: String, user: mdl::User) -> (res: User)
        ensures
            res.token == token,
            res.username == user.username,
            res.email == user.email,
            res.bio == user.bio,
            res.image == user.image,
    {
        User {
            token,
            username: user.username,
            email: user.email,
            bio: user.bio,
            image: user.image,
        }
    }
}

#[derive(Debug, PartialEq)]
pub struct UserResponse {
    pub user: User,
}

/// What another user sees of a user.
#[derive(Debug, PartialEq)]
pub struct Profile {
    username: String,
    bio: Option<String>,
    image: Option<String>,
    following: bool,
}

/// The contents of a profile.
#[verifier::ext_equal]
pub struct ProfileView {
    pub username: Seq<char>,
    pub bio: Option<Seq<char>>,
    pub image: Option<Seq<char>>,
    pub following: bool,
}

/// The view of an optional string.
pub open spec fn opt_view(s: Option<String>) -> Option<Seq<char>> {
    match s {
        Some(x) => Some(x@),
        None => None,
    }
}

impl View for Profile {
    type V = ProfileView;

    closed spec fn view(&self) -> ProfileView {
        ProfileView {
            username: self.username@,
            bio: opt_view(self.bio),
            image: opt_view(self.image),
            following: self.following,
        }
    }
}

/// What a reader sees of `user`, whom the reader follows or not.
pub open spec fn profile_of(user: mdl::User, following: bool) -> ProfileView {
    ProfileView {
        username: user.username@,
        bio: opt_view(user.bio),
        image: opt_view(user.image),
        following,
    }
}

impl Profile {
    /// The profile of `user`, seen by someone who follows the user or not.
    pub fn from_user(user: mdl::User, following: bool) -> (res: Profile)
        ensures
            res@ == profile_of(user, following),
    {
        Profile {
            username: user.username,
            bio: user.bio,
            image: user.image,
            following,
        }
    }

    pub fn username(&self) -> (r: &String)
        ensures
            r@ == self@.username,
    {
        &self.username
    }

    pub fn bio(&self) -> (r: &Option<String>)
        ensures
            opt_view(*r) == self@.bio,
    {
        &self.bio
    }

    pub fn image(&self) -> (r: &Option<String>)
        ensures
            opt_view(*r) == self@.image,
    {
        &self.image
    }

    pub fn following(&self) -> (r: bool)
        ensures
            r == self@.following,
    {
        self.following
    }
}

#[derive(Debug, PartialEq)]
pub struct ProfileResponse {
    pub profile: Profile,
}

/// A point in time, shown as `%Y-%m-%dT%H:%M:%S.%3fZ` when it is serialized.
#[derive(Debug, PartialEq)]
pub struct DateTimeStr(pub chrono::NaiveDateTime);

/// An article as the service shows it.
#[derive(Debug, PartialEq)]
pub struct Article {
    pub slug: String,
    pub title: String,
    pub description: String,
    pub body: String,
    pub tag_list: Vec<String>,
    pub created_at: DateTimeStr,
    pub updated_at: DateTimeStr,
    pub favorited: bool,
    pub favorites_count: i64,
    pub author: Profile,
}

/// The article shown for a stored article, its author's profile, whether the
/// reader marked it as a favorite, how many did, and its tags.
pub open spec fn article_shown(
    article: mdl::Article,
    author: Profile,
    favorited: bool,
    favorites_count: i64,
    tag_list: Vec<String>,
) -> Article {
    Article {
        slug: article.slug,
        title: article.title,
        description: article.description,
        body: article.body,
        tag_list,
        created_at: DateTimeStr(article.created_at),
        updated_at: DateTimeStr(article.updated_at),
        favorited,
        favorites_count,
        author,
    }
}

/// Whether `shown` shows the stored `article` with an author profile that
/// looks like `author`, the given favorite flag and count, and the given tags.
pub open spec fn shows_article(
    shown: Article,
    article: mdl::Article,
    author: ProfileView,
    favorited: bool,
    favorites_count: i64,
    tags: Seq<String>,
) -> bool {
    &&& shown.slug == article.slug
    &&& shown.title == article.title
    &&& shown.description == article.description
    &&& shown.body == article.body
    &&& shown.tag_list@ == tags
    &&& shown.created_at == DateTimeStr(article.created_at)
    &&& shown.updated_at == DateTimeStr(article.updated_at)
    &&& shown.favorited == favorited
    &&& shown.favorites_count == favorites_count
    &&& shown.author@ == author
}

impl Article {
    /// A builder with no part set yet: not favorited, no count.
    pub fn new_builder() -> (b: ArticleBuilder<(), (), ()>)
        ensures
            b.favorited_part() == false,
            b.count_part() is None,
    {
        ArticleBuilder::new()
    }
}

/// Collects the parts of an article to be shown; the type records which
/// parts have been given.
pub struct ArticleBuilder<ArticleT, AuthorT, TagsT> {
    article: ArticleT,
    author: AuthorT,
    favorited: bool,
    favorites_count: Option<i64>,
    tag_list: TagsT,
}

impl<ArticleT, AuthorT, TagsT> ArticleBuilder<ArticleT, AuthorT, TagsT> {
    pub closed spec fn article_part(&self) -> ArticleT {
        self.article
    }

    pub closed spec fn author_part(&self) -> AuthorT {
        self.author
    }

    pub closed spec fn favorited_part(&self) -> bool {
        self.favorited
    }

    pub closed spec fn count_part(&self) -> Option<i64> {
        self.favorites_count
    }

    pub closed spec fn tags_part(&self) -> TagsT {
        self.tag_list
    }
}

impl ArticleBuilder<(), (), ()> {
    fn new() -> (b: Self)
        ensures
            b.favorited_part() == false,
            b.count_part() is None,
    {
        ArticleBuilder {
            article: (),
            author: (),
            favorited: false,
            favorites_count: None,
            tag_list: (),
        }
    }
}

impl<ArticleT, AuthorT, TagsT> ArticleBuilder<ArticleT, AuthorT, TagsT> {
    /// Sets the stored article, its favorites count and its tags.
    pub fn article(
        self,
        article: mdl::Article,
        favorites_count: i64,
        tag_list: Vec<String>,
    ) -> (b: ArticleBuilder<mdl::Article, AuthorT, Vec<String>>)
        ensures
            b.article_part() == article,
            b.author_part() == self.author_part(),
            b.favorited_part() == self.favorited_part(),
            b.count_part() == Some(favorites_count),
            b.tags_part() == tag_list,
    {
        ArticleBuilder {
            article,
            author: self.author,
            favorited: self.favorited,
            favorites_count: Some(favorites_count),
            tag_list,
        }
    }

    /// Sets the author's profile.
    pub fn author(self, author: Profile) -> (b: ArticleBuilder<ArticleT, Profile, TagsT>)
        ensures
            b.article_part() == self.article_part(),
            b.author_part() == author,
            b.favorited_part() == self.favorited_part(),
            b.count_part() == self.count_part(),
            b.tags_part() == self.tags_part(),
    {
        ArticleBuilder {
            article: self.article,
            author,
            favorited: self.favorited,
            favorites_count: self.favorites_count,
            tag_list: self.tag_list,
        }
    }

    /// Sets whether the reader marked the article as a favorite.
    pub fn favorited(self, favorited: bool) -> (b: ArticleBuilder<ArticleT, AuthorT, TagsT>)
        ensures
            b.article_part() == self.article_part(),
            b.author_part() == self.author_part(),
            b.favorited_part() == favorited,
            b.count_part() == self.count_part(),
            b.tags_part() == self.tags_part(),
    {
        ArticleBuilder { favorited, ..self }
    }
}

impl ArticleBuilder<mdl::Article, Profile, Vec<String>> {
    /// The article to be shown, once every part has been given.
    pub fn build(self) -> (res: Article)
        requires
            self.count_part() is Some,
        ensures
            res == article_shown(
                self.article_part(),
                self.author_part(),
                self.favorited_part(),
                self.count_part()->0,
                self.tags_part(),
            ),
    {
        let favorites_count = match self.favorites_count {
            Some(c) => c,
            None => 0,
        };
        Article {
            slug: self.article.slug,
            title: self.article.title,
            description: self.article.description,
            body: self.article.body,
            tag_list: self.tag_list,
            created_at: DateTimeStr(self.article.created_at),
            updated_at: DateTimeStr(self.article.updated_at),
            favorited: self.favorited,
            favorites_count,
            author: self.author,
        }
    }
}

#[derive(Debug, PartialEq)]
pub struct ArticleResponse {
    pub article: Article,
}

/// A list of articles with its length.
#[derive(Debug, PartialEq)]
pub struct ArticleListResponse {
    pub articles: Vec<Article>,
    pub articles_count: u32,
}

impl ArticleListResponse {
    /// The list with its length, taken modulo 2^32 as a `u32`.
    pub fn new(articles: Vec<Article>) -> (res: ArticleListResponse)
        ensures
            res.articles == articles,
            res.articles_count == articles@.len() as u32,
    {
        let n = articles.len();
        ArticleListResponse { articles_count: n as u32, articles }
    }
}

/// A comment as the service shows it.
#[derive(Debug, PartialEq)]
pub struct Comment {
    id: i32,
    created_at: DateTimeStr,
    updated_at: DateTimeStr,
    body: String,
    author: Profile,
}

/// The contents of a comment shown.
pub struct CommentView {
    pub id: i32,
    pub created_at: chrono::NaiveDateTime,
    pub updated_at: chrono::NaiveDateTime,
    pub body: Seq<char>,
    pub author: Profile,
}

impl View for Comment {
    type V = CommentView;

    closed spec fn view(&self) -> CommentView {
        CommentView {
            id: self.id,
            created_at: self.created_at.0,
            updated_at: self.updated_at.0,
            body: self.body@,
            author: self.author,
        }
    }
}

impl Comment {
    /// The stored comment shown with its author's profile.
    pub fn new(comment: mdl::Comment, author: Profile) -> (res: Comment)
        ensures
            res@.id == comment.id,
            res@.created_at == comment.created_at,
            res@.updated_at == comment.updated_at,
            res@.body == comment.body@,
            res@.author == author,
    {
        Comment {
            id: comment.id,
            created_at: DateTimeStr(comment.created_at),
            updated_at: DateTimeStr(comment.updated_at),
            body: comment.body,
            author,
        }
    }

    pub fn id(&self) -> (r: i32)
        ensures
            r == self@.id,
    {
        self.id
    }

    pub fn created_at(&self) -> (r: &DateTimeStr)
        ensures
            r.0 == self@.created_at,
    {
        &self.created_at
    }

    pub fn updated_at(&self) -> (r: &DateTimeStr)
        ensures
            r.0 == self@.updated_at,
    {
        &self.updated_at
    }

    pub fn body(&self) -> (r: &String)
        ensures
            r@ == self@.body,
    {
        &self.body
    }

    pub fn author(&self) -> (r: &Profile)
        ensures
            *r == self@.author,
    {
        &self.author
    }
}

#[derive(Debug, PartialEq)]
pub struct CommentResponse {
    pub comment: Comment,
}

#[derive(Debug, PartialEq)]
pub struct CommentListResponse {
    pub comments: Vec<Comment>,
}

#[derive(Debug, PartialEq)]
pub struct TagListResponse {
    pub tags: Vec<String>,
}

} // verus!
