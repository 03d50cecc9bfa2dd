//! The records the service stores: users and their credentials, articles,
//! favorites, followers and comments.
use vstd::prelude::*;

verus! {

/// A point in time as the store keeps it; the service only carries it.
#[verifier::external_type_specification]
#[verifier::external_body]
pub struct ExNaiveDateTime(chrono::NaiveDateTime);

/// A registered user.
#[derive(Debug, PartialEq)]
pub struct User {
    pub id: i32,
    pub username: String,
    pub email: String,
    pub bio: Option<String>,
    pub image: Option<String>,
    pub created_at: chrono::NaiveDateTime,
    pub updated_at: chrono::NaiveDateTime,
}

/// A user to be registered.
#[derive(Debug, Clone, PartialEq, Default)]
pub struct NewUser {
    pub username: String,
    pub email: String,
    pub bio: Option<String>,
    pub image: Option<String>,
}

/// The columns of a user to be changed; `None` leaves a column as it is.
#[derive(Debug, Clone, PartialEq)]
pub struct UserChange {
    pub username: Option<String>,
    pub email: Option<String>,
    pub bio: Option<Option<String>>,
    pub image: Option<Option<String>>,
}

/// The stored password hash of a user.
#[derive(Debug, PartialEq)]
pub struct Credential {
    pub user_id: i32,
    pub password_hash: String,
    pub created_at: chrono::NaiveDateTime,
    pub updated_at: chrono::NaiveDateTime,
}

/// A password hash to be stored for a user.
#[derive(Debug, Clone, PartialEq)]
pub struct NewCredential {
    pub user_id: i32,
    pub password_hash: String,
}

/// A change of a stored password hash; `None` leaves it as it is.
#[derive(Debug, Clone, PartialEq)]
pub struct CredentialChange {
    pub password_hash: Option<String>,
}

/// A published article.
#[derive(Debug, PartialEq)]
pub struct Article {
    pub id: i32,
    pub author_id: i32,
    pub slug: String,
    pub title: String,
    pub description: String,
    pub body: String,
    pub created_at: chrono::NaiveDateTime,
    pub updated_at: chrono::NaiveDateTime,
}

/// An article to be published.
#[derive(Debug, Clone, PartialEq, Default)]
pub struct NewArticle {
    pub author_id: i32,
    pub slug: String,
    pub title: String,
    pub description: String,
    pub body: String,
}

/// The columns of an article to be changed; `None` leaves a column as it is.
#[derive(Debug, Clone, PartialEq)]
pub struct ArticleChange {
    pub slug: Option<String>,
    pub title: Option<String>,
    pub description: Option<String>,
    pub body: Option<String>,
}

/// A user marking an article as a favorite.
#[derive(Debug, Clone, PartialEq)]
pub struct NewFavoriteArticle {
    pub user_id: i32,
    pub article_id: i32,
}

/// A follower relation: `follower_id` follows `user_id`.
#[derive(Debug, Clone, PartialEq)]
pub struct NewFollower {
    pub user_id: i32,
    pub follower_id: i32,
}

/// A stored comment on an article.
#[derive(Debug, PartialEq)]
pub struct Comment {
    pub id: i32,
    pub article_id: i32,
    pub user_id: i32,
    pub body: String,
    pub created_at: chrono::NaiveDateTime,
    pub updated_at: chrono::NaiveDateTime,
}

/// A comment to be stored.
#[derive(Debug, Clone, PartialEq)]
pub struct NewComment {
    pub article_id: i32,
    pub user_id: i32,
    pub body: String,
}

} // verus!
