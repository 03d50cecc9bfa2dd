//! Commenting on articles.
pub mod add_comment;
pub mod list_comments;

use vstd::prelude::*;

verus! {

/// The envelope of a comment request: `{"comment": ...}`.
#[derive(Debug)]
pub struct In<T> {
    pub comment: T,
}

/// A comment as its author writes it.
#[derive(Debug, Clone)]
pub struct NewComment {
    pub body: String,
}

} // verus!
