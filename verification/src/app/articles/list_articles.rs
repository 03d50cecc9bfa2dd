//! Listing articles, newest first, filtered by tag, author and favoriting
//! user, one page at a time.
use vstd::prelude::*;

verus! {

/// How many articles a page holds when none is asked for.
pub const DEFAULT_LIMIT: u32 = 20;

/// The most a page may hold, and the furthest a page may start.
pub const MAX_PAGE: u32 = 500;

/// The query of an article list.
#[derive(Debug, Clone)]
pub struct Params {
    pub tag: Option<String>,
    pub author: Option<String>,
    pub favorited: Option<String>,
    pub limit: Option<u32>,
    pub offset: Option<u32>,
}

/// A page: at most `MAX_PAGE` articles, 20 when no limit is given, starting
/// at most `MAX_PAGE` articles in, at the start when no offset is given.
pub open spec fn page_spec(limit: Option<u32>, offset: Option<u32>) -> (i64, i64) {
    let l = match limit { Some(l) => l, None => DEFAULT_LIMIT };
    let o = match offset { Some(o) => o, None => 0 };
    ((if l < MAX_PAGE { l } else { MAX_PAGE }) as i64, (if o < MAX_PAGE { o } else { MAX_PAGE }) as i64)
}

/// The limit and offset of the page asked for.
pub fn page(limit: Option<u32>, offset: Option<u32>) -> (lo: (i64, i64))
    ensures
        lo == page_spec(limit, offset),
        0 <= lo.0 <= MAX_PAGE,
        0 <= lo.1 <= MAX_PAGE,
{
    let l = match limit { Some(l) => l, None => DEFAULT_LIMIT };
    let o = match offset { Some(o) => o, None => 0 };
    let l = if l < MAX_PAGE { l } else { MAX_PAGE };
    let o = if o < MAX_PAGE { o } else { MAX_PAGE };
    (l as i64, o as i64)
}

/// The search an article list asks for: the filters to apply, and the page.
#[derive(Debug, Clone)]
pub struct ArticleSearch {
    pub author: Option<String>,
    pub favorited_by: Option<String>,
    pub tag: Option<String>,
    pub limit: i64,
    pub offset: i64,
}

/// The search for a list query.
pub fn search_for(p: Params) -> (s: ArticleSearch)
    ensures
        s.author == p.author,
        s.favorited_by == p.favorited,
        s.tag == p.tag,
        (s.limit, s.offset) == page_spec(p.limit, p.offset),
{
    let (limit, offset) = page(p.limit, p.offset);
    ArticleSearch { author: p.author, favorited_by: p.favorited, tag: p.tag, limit, offset }
}

} // verus!
