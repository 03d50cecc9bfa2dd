//! Turns stored articles and what was looked up about them into the list a
//! reader is shown.
use vstd::prelude::*;
use std::collections::{HashMap, HashSet};
use crate::app::res::{self, profile_of, shows_article};
use crate::mdl::{Article, User};

verus! {

broadcast use vstd::std_specs::hash::group_hash_axioms;

/// The tags stored with `id` among the first rows, in row order.
pub open spec fn tags_of(rows: Seq<(i32, String)>, id: i32) -> Seq<String>
    decreases rows.len(),
{
    if rows.len() == 0 {
        Seq::empty()
    } else {
        tags_of(rows.drop_last(), id) + (if rows.last().0 == id { seq![rows.last().1] } else { Seq::empty() })
    }
}

/// Whether some row is about `id`.
pub open spec fn has_row(rows: Seq<(i32, String)>, id: i32) -> bool {
    exists|j: int| 0 <= j < rows.len() && (#[trigger] rows[j]).0 == id
}

proof fn lemma_tags_of_push(rows: Seq<(i32, String)>, row: (i32, String), id: i32)
    ensures
        tags_of(rows.push(row), id) == tags_of(rows, id) + (if row.0 == id { seq![row.1] } else { Seq::empty() }),
{
    assert(rows.push(row).drop_last() =~= rows);
}

/// The tag lists of the rows `(article id, tag name)`, grouped by article:
/// every article id with a row maps to its tag names in row order.
pub fn group_tags(rows: Vec<(i32, String)>) -> (map: HashMap<i32, Vec<String>>)
    ensures
        forall|id: i32| map@.contains_key(id) <==> has_row(rows@, id),
        forall|id: i32| #[trigger] map@.contains_key(id) ==> map@[id]@ == tags_of(rows@, id),
{
    let mut map: HashMap<i32, Vec<String>> = HashMap::new();
    let n = rows.len();
    let mut i: usize = 0;
    while i < n
        invariant
            n == rows@.len(),
            i <= n,
            forall|id: i32| map@.contains_key(id) <==> has_row(rows@.subrange(0, i as int), id),
            forall|id: i32| #[trigger] map@.contains_key(id) ==> map@[id]@ == tags_of(rows@.subrange(0, i as int), id),
        decreases n - i,
    {
        let id = rows[i].0;
        let tag = rows[i].1.clone();
        let ghost before = map@;
        let mut tags = match map.remove(&id) {
            Some(v) => v,
            None => Vec::new(),
        };
        tags.push(tag);
        map.insert(id, tags);
        proof {
            let prefix = rows@.subrange(0, i as int);
            let next = rows@.subrange(0, i + 1);
            assert(next =~= prefix.push(rows@[i as int]));
            assert forall|k: i32| map@.contains_key(k) <==> has_row(next, k) by {
                if k == id {
                    assert(next[i as int].0 == id);
                } else {
                    if has_row(next, k) {
                        let j = choose|j: int| 0 <= j < next.len() && (#[trigger] next[j]).0 == k;
                        assert(prefix[j] == next[j]);
                    }
                    if has_row(prefix, k) {
                        let j = choose|j: int| 0 <= j < prefix.len() && (#[trigger] prefix[j]).0 == k;
                        assert(prefix[j] == next[j]);
                    }
                }
            }
            assert forall|k: i32| #[trigger] map@.contains_key(k) implies map@[k]@ == tags_of(next, k) by {
                lemma_tags_of_push(prefix, rows@[i as int], k);
                if k == id {
                    if !before.contains_key(id) {
                        if tags_of(prefix, id).len() > 0 {
                            lemma_tags_of_nonempty(prefix, id);
                        }
                        assert(tags_of(prefix, id) =~= Seq::<String>::empty());
                    }
                }
            }
        }
        i = i + 1;
    }
    proof {
        assert(rows@.subrange(0, n as int) =~= rows@);
    }
    map
}

proof fn lemma_tags_of_nonempty(rows: Seq<(i32, String)>, id: i32)
    requires
        tags_of(rows, id).len() > 0,
    ensures
        has_row(rows, id),
    decreases rows.len(),
{
    if rows.len() > 0 {
        if rows.last().0 == id {
            assert(rows[rows.len() - 1].0 == id);
        } else {
            assert(tags_of(rows, id) =~= tags_of(rows.drop_last(), id));
            lemma_tags_of_nonempty(rows.drop_last(), id);
            let j = choose|j: int| 0 <= j < rows.drop_last().len() && (#[trigger] rows.drop_last()[j]).0 == id;
            assert(rows[j] == rows.drop_last()[j]);
        }
    }
}

/// The count stored last for `id` among the rows `(article id, count)`.
pub open spec fn last_count(rows: Seq<(i32, i64)>, id: i32) -> Option<i64>
    decreases rows.len(),
{
    if rows.len() == 0 {
        None
    } else if rows.last().0 == id {
        Some(rows.last().1)
    } else {
        last_count(rows.drop_last(), id)
    }
}

/// The favorite counts of the rows `(article id, count)`, keyed by article;
/// a later row for the same article replaces an earlier one.
pub fn favorite_counts(rows: Vec<(i32, i64)>) -> (map: HashMap<i32, i64>)
    ensures
        forall|id: i32| #[trigger] map@.contains_key(id) <==> last_count(rows@, id) is Some,
        forall|id: i32| #[trigger] map@.contains_key(id) ==> map@[id] == last_count(rows@, id)->0,
{
    let mut map: HashMap<i32, i64> = HashMap::new();
    let n = rows.len();
    let mut i: usize = 0;
    while i < n
        invariant
            n == rows@.len(),
            i <= n,
            forall|id: i32| #[trigger] map@.contains_key(id) <==> last_count(rows@.subrange(0, i as int), id) is Some,
            forall|id: i32| #[trigger] map@.contains_key(id) ==> map@[id] == last_count(rows@.subrange(0, i as int), id)->0,
        decreases n - i,
    {
        let (id, count) = rows[i];
        map.insert(id, count);
        proof {
            assert(rows@.subrange(0, i + 1).drop_last() =~= rows@.subrange(0, i as int));
        }
        i = i + 1;
    }
    proof {
        assert(rows@.subrange(0, n as int) =~= rows@);
    }
    map
}

/// The set of the given ids.
pub fn id_set(ids: Vec<i32>) -> (set: HashSet<i32>)
    ensures
        forall|id: i32| #[trigger] set@.contains(id) <==> ids@.contains(id),
{
    let mut set: HashSet<i32> = HashSet::new();
    let n = ids.len();
    let mut i: usize = 0;
    while i < n
        invariant
            n == ids@.len(),
            i <= n,
            forall|id: i32| #[trigger] set@.contains(id) <==> ids@.subrange(0, i as int).contains(id),
        decreases n - i,
    {
        let id = ids[i];
        set.insert(id);
        proof {
            let next = ids@.subrange(0, i + 1);
            let prefix = ids@.subrange(0, i as int);
            assert forall|k: i32| set@.contains(k) <==> next.contains(k) by {
                if next.contains(k) && k != id {
                    let j = choose|j: int| 0 <= j < next.len() && next[j] == k;
                    assert(prefix[j] == k);
                }
                if prefix.contains(k) {
                    let j = choose|j: int| 0 <= j < prefix.len() && prefix[j] == k;
                    assert(next[j] == k);
                }
                if k == id {
                    assert(next[i as int] == k);
                }
            }
        }
        i = i + 1;
    }
    proof {
        assert(ids@.subrange(0, n as int) =~= ids@);
    }
    set
}

/// The ids of the listed articles and of their authors, in list order.
pub fn listed_ids(articles: &Vec<(Article, User)>) -> (ids: (Vec<i32>, Vec<i32>))
    ensures
        ids.0@.len() == articles@.len(),
        ids.1@.len() == articles@.len(),
        forall|i: int| 0 <= i < articles@.len() ==> ids.0@[i] == (#[trigger] articles@[i]).0.id && ids.1@[i] == articles@[i].1.id,
{
    let mut article_ids: Vec<i32> = Vec::new();
    let mut author_ids: Vec<i32> = Vec::new();
    let n = articles.len();
    let mut i: usize = 0;
    while i < n
        invariant
            n == articles@.len(),
            i <= n,
            article_ids@.len() == i,
            author_ids@.len() == i,
            forall|j: int| 0 <= j < i ==> article_ids@[j] == (#[trigger] articles@[j]).0.id && author_ids@[j] == articles@[j].1.id,
        decreases n - i,
    {
        article_ids.push(articles[i].0.id);
        author_ids.push(articles[i].1.id);
        i = i + 1;
    }
    (article_ids, author_ids)
}

/// What was looked up for a signed-in reader: the authors the reader
/// follows, the articles the reader marked as favorites, and how many users
/// marked each article.
pub struct ReaderLookups {
    pub followings: HashSet<i32>,
    pub favorites: HashSet<i32>,
    pub fav_counts: HashMap<i32, i64>,
}

/// Whether the reader follows the author; an anonymous reader follows no one.
pub open spec fn listed_following(reader: Option<ReaderLookups>, author_id: i32) -> bool {
    match reader {
        Some(r) => r.followings@.contains(author_id),
        None => false,
    }
}

/// Whether the reader marked the article; an anonymous reader marked none.
pub open spec fn listed_favorited(reader: Option<ReaderLookups>, article_id: i32) -> bool {
    match reader {
        Some(r) => r.favorites@.contains(article_id),
        None => false,
    }
}

/// The favorite count shown: the looked-up count, or 0 when there is none
/// or when no count was looked up for an anonymous reader.
pub open spec fn listed_count(reader: Option<ReaderLookups>, article_id: i32) -> i64 {
    match reader {
        Some(r) => if r.fav_counts@.contains_key(article_id) { r.fav_counts@[article_id] } else { 0 },
        None => 0,
    }
}

/// The favorite count shown to a signed-in reader is the count looked up for
/// the article, 0 when none was looked up, whatever the reader's own
/// favorites and followings are: two readers whose lookups give the same
/// counts are shown the same count.
pub proof fn listed_count_is_the_looked_up_count(r: ReaderLookups, other: ReaderLookups, article_id: i32)
    requires
        other.fav_counts@ == r.fav_counts@,
    ensures
        r.fav_counts@.contains_key(article_id) ==> listed_count(Some(r), article_id) == r.fav_counts@[article_id],
        !r.fav_counts@.contains_key(article_id) ==> listed_count(Some(r), article_id) == 0,
        listed_count(Some(other), article_id) == listed_count(Some(r), article_id),
{
}

/// Whether the i-th listed article is the first listing of its id.
pub open spec fn first_listing(articles: Seq<(Article, User)>, i: int) -> bool {
    forall|j: int| 0 <= j < i ==> (#[trigger] articles[j]).0.id != articles[i].0.id
}

/// The tags shown with the i-th listed article: its tag list, for the first
/// listing of the article only.
pub open spec fn listed_tags(articles: Seq<(Article, User)>, tags: Map<i32, Vec<String>>, i: int) -> Seq<String> {
    let id = articles[i].0.id;
    if first_listing(articles, i) && tags.contains_key(id) {
        tags[id]@
    } else {
        Seq::empty()
    }
}

/// The tags shown with a listed article are its stored tag rows, in row
/// order, when the tag lists were grouped from those rows: all of them on
/// the article's first listing, none on a later one.
pub proof fn listed_tags_are_stored_rows(
    articles: Seq<(Article, User)>,
    rows: Seq<(i32, String)>,
    tags: Map<i32, Vec<String>>,
    i: int,
)
    requires
        0 <= i < articles.len(),
        forall|id: i32| tags.contains_key(id) <==> has_row(rows, id),
        forall|id: i32| #[trigger] tags.contains_key(id) ==> tags[id]@ == tags_of(rows, id),
    ensures
        listed_tags(articles, tags, i) == (if first_listing(articles, i) { tags_of(rows, articles[i].0.id) } else { Seq::empty() }),
{
    let id = articles[i].0.id;
    if first_listing(articles, i) && !tags.contains_key(id) {
        if tags_of(rows, id).len() > 0 {
            lemma_tags_of_nonempty(rows, id);
        }
        assert(tags_of(rows, id) =~= Seq::<String>::empty());
    }
}

/// For a signed-in reader, an article in a list is shown as reading it alone
/// shows it, when both see the same records: the list's lookups say the
/// reader follows the author and favorited the article exactly when the
/// follower and favorite records that a lone read finds exist, they give the
/// same favorite count, and the tags grouped for the list are the article's
/// tags (on its first listing). Then what `build_article_list` promises of the
/// listed article and what `article_for_reader` promises, with the flags of
/// `favorite_and_following`, hold of the same shown articles.
pub proof fn listed_article_reads_as_alone(
    articles: Seq<(Article, User)>,
    r: ReaderLookups,
    tags: Map<i32, Vec<String>>,
    i: int,
    fav_id: Option<i32>,
    follow_id: Option<i32>,
    count: i64,
    article_tags: Seq<String>,
)
    requires
        0 <= i < articles.len(),
        first_listing(articles, i),
        r.followings@.contains(articles[i].1.id) <==> follow_id is Some,
        r.favorites@.contains(articles[i].0.id) <==> fav_id is Some,
        listed_count(Some(r), articles[i].0.id) == count,
        tags.contains_key(articles[i].0.id) ==> tags[articles[i].0.id]@ == article_tags,
        !tags.contains_key(articles[i].0.id) ==> article_tags == Seq::<String>::empty(),
    ensures
        forall|shown: res::Article| #[trigger] shows_article(
            shown,
            articles[i].0,
            profile_of(articles[i].1, listed_following(Some(r), articles[i].1.id)),
            listed_favorited(Some(r), articles[i].0.id),
            listed_count(Some(r), articles[i].0.id),
            listed_tags(articles, tags, i),
        ) <==> shows_article(shown, articles[i].0, profile_of(articles[i].1, follow_id is Some), fav_id is Some, count, article_tags),
{
}

/// Whether some of the first `i` listed articles has the id.
pub open spec fn listed_before(articles: Seq<(Article, User)>, i: int, id: i32) -> bool {
    exists|j: int| 0 <= j < i && (#[trigger] articles[j]).0.id == id
}

/// The list shown to a reader: one shown article per stored article, in the
/// same order, with the author's profile, the reader's favorite flag and the
/// favorite count, and the article's tags.
pub fn build_article_list(
    articles: Vec<(Article, User)>,
    reader: &Option<ReaderLookups>,
    tag_lists: HashMap<i32, Vec<String>>,
) -> (list: Vec<res::Article>)
    ensures
        list@.len() == articles@.len(),
        forall|i: int| 0 <= i < articles@.len() ==> shows_article(
            #[trigger] list@[i],
            articles@[i].0,
            profile_of(articles@[i].1, listed_following(*reader, articles@[i].1.id)),
            listed_favorited(*reader, articles@[i].0.id),
            listed_count(*reader, articles@[i].0.id),
            listed_tags(articles@, tag_lists@, i),
        ),
{
    let ghost orig = articles@;
    let ghost orig_tags = tag_lists@;
    let mut articles = articles;
    let mut tag_lists = tag_lists;
    let mut list: Vec<res::Article> = Vec::new();
    let n = articles.len();
    let mut i: usize = 0;
    while i < n
        invariant
            n == orig.len(),
            i <= n,
            articles@ == orig.subrange(i as int, n as int),
            list@.len() == i,
            forall|id: i32| #[trigger] tag_lists@.contains_key(id) <==> (orig_tags.contains_key(id) && !listed_before(orig, i as int, id)),
            forall|id: i32| #[trigger] tag_lists@.contains_key(id) ==> tag_lists@[id] == orig_tags[id],
            forall|j: int| 0 <= j < i ==> shows_article(
                #[trigger] list@[j],
                orig[j].0,
                profile_of(orig[j].1, listed_following(*reader, orig[j].1.id)),
                listed_favorited(*reader, orig[j].0.id),
                listed_count(*reader, orig[j].0.id),
                listed_tags(orig, orig_tags, j),
            ),
        decreases n - i,
    {
        let (article, author) = articles.remove(0);
        proof {
            assert(orig[i as int] == (article, author));
        }
        let following = match reader {
            Some(r) => r.followings.contains(&author.id),
            None => false,
        };
        let favorited = match reader {
            Some(r) => r.favorites.contains(&article.id),
            None => false,
        };
        let favorites_count: i64 = match reader {
            Some(r) => match r.fav_counts.get(&article.id) {
                Some(c) => *c,
                None => 0,
            },
            None => 0,
        };
        let ghost id = article.id;
        let tags = match tag_lists.remove(&article.id) {
            Some(v) => v,
            None => Vec::new(),
        };
        proof {
            if first_listing(orig, i as int) {
                if listed_before(orig, i as int, id) {
                    let j = choose|j: int| 0 <= j < i && (#[trigger] orig[j]).0.id == id;
                    assert(orig[j].0.id != orig[i as int].0.id);
                }
            } else {
                let j = choose|j: int| 0 <= j < i && (#[trigger] orig[j]).0.id == orig[i as int].0.id;
                assert(listed_before(orig, i as int, id));
            }
            assert(tags@ == listed_tags(orig, orig_tags, i as int));
        }
        let shown = res::Article::new_builder()
            .author(res::Profile::from_user(author, following))
            .favorited(favorited)
            .article(article, favorites_count, tags)
            .build();
        list.push(shown);
        proof {
            assert forall|k: i32| #[trigger] tag_lists@.contains_key(k) <==> (orig_tags.contains_key(k) && !listed_before(orig, i + 1, k)) by {
                if listed_before(orig, i + 1, k) && k != id {
                    let j = choose|j: int| 0 <= j < i + 1 && (#[trigger] orig[j]).0.id == k;
                    assert(listed_before(orig, i as int, k));
                }
                if listed_before(orig, i as int, k) {
                    let j = choose|j: int| 0 <= j < i && (#[trigger] orig[j]).0.id == k;
                    assert(listed_before(orig, i + 1, k));
                }
                if k == id {
                    assert(orig[i as int].0.id == k);
                    assert(listed_before(orig, i + 1, k));
                }
            }
        }
        i = i + 1;
    }
    list
}

} // verus!
