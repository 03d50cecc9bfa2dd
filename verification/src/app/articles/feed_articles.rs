//! The feed: articles by the authors a user follows, one page at a time.
use vstd::prelude::*;
use super::list_articles::{page, page_spec};

verus! {

/// The query of a feed.
#[derive(Debug, Clone)]
pub struct Params {
    pub limit: Option<u32>,
    pub offset: Option<u32>,
}

/// The limit and offset of the feed page asked for.
pub fn feed_page(p: &Params) -> (lo: (i64, i64))
    ensures
        lo == page_spec(p.limit, p.offset),
{
    page(p.limit, p.offset)
}

} // verus!
