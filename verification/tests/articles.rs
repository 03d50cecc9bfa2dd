use chrono::{NaiveDate, NaiveDateTime};
use conduit::app::articles::build_article_list::{
    build_article_list, favorite_counts, group_tags, id_set, listed_ids, ReaderLookups,
};
use conduit::app::articles::create_article::{created_article, new_article_record};
use conduit::app::articles::delete_article::check_author;
use conduit::app::articles::feed_articles::{feed_page, Params as FeedParams};
use conduit::app::articles::get_article::{article_for_reader, favorite_and_following};
use conduit::app::articles::list_articles::{page, search_for, Params};
use conduit::app::articles::slugify::{slugify, CanSlugify};
use conduit::app::articles::update_article::plan_article_update;
use conduit::app::articles::{ArticleChange, NewArticle};
use conduit::app::res::{Article, Profile};
use conduit::config::Config;
use conduit::error::{ErrorKind, ErrorKindAuth};
use conduit::hub::Hub;
use conduit::mdl;
use std::collections::{HashMap, HashSet};

fn at(h: u32) -> NaiveDateTime {
    NaiveDate::from_ymd_opt(2018, 1, 1).unwrap().and_hms_opt(h, 10, 11).unwrap()
}

fn user(id: i32, name: &str) -> mdl::User {
    mdl::User {
        id,
        username: name.to_owned(),
        email: format!("{}@a.a", name),
        bio: None,
        image: None,
        created_at: at(9),
        updated_at: at(9),
    }
}

fn article(id: i32, author_id: i32, slug: &str) -> mdl::Article {
    mdl::Article {
        id,
        author_id,
        slug: slug.to_owned(),
        title: String::new(),
        description: String::new(),
        body: String::new(),
        created_at: at(10),
        updated_at: at(10),
    }
}

fn shown(a: mdl::Article, author: mdl::User, following: bool, favorited: bool, count: i64, tags: Vec<String>) -> Article {
    Article::new_builder()
        .author(Profile::from_user(author, following))
        .favorited(favorited)
        .article(a, count, tags)
        .build()
}

fn is_slug_with_suffix(s: &str, base: &str) -> bool {
    let prefix = format!("{}-", base);
    s.starts_with(&prefix)
        && s.len() == prefix.len() + 10
        && s[prefix.len()..].chars().all(|c| c.is_ascii_alphanumeric())
}

#[test]
fn tag_rows_are_grouped_in_order() {
    let rows = vec![(1, "a".to_owned()), (2, "x".to_owned()), (1, "b".to_owned())];
    let map = group_tags(rows);
    assert_eq!(map.len(), 2);
    assert_eq!(map[&1], vec!["a".to_owned(), "b".to_owned()]);
    assert_eq!(map[&2], vec!["x".to_owned()]);
    assert!(group_tags(vec![]).is_empty());
}

#[test]
fn later_counts_replace_earlier_ones() {
    let map = favorite_counts(vec![(1, 3), (2, 5), (1, 4)]);
    assert_eq!(map.len(), 2);
    assert_eq!(map[&1], 4);
    assert_eq!(map[&2], 5);
}

#[test]
fn ids_are_collected() {
    let set = id_set(vec![3, 1, 3]);
    assert_eq!(set.len(), 2);
    assert!(set.contains(&1) && set.contains(&3));
    let (a, u) = listed_ids(&vec![(article(5, 1, "a"), user(1, "u")), (article(6, 2, "b"), user(2, "v"))]);
    assert_eq!(a, vec![5, 6]);
    assert_eq!(u, vec![1, 2]);
}

#[test]
fn anonymous_reader_sees_no_flags_and_no_counts() {
    let mut tags = HashMap::new();
    tags.insert(5, vec!["t".to_owned()]);
    let list = build_article_list(
        vec![(article(5, 1, "a"), user(1, "u")), (article(6, 2, "b"), user(2, "v"))],
        &None,
        tags,
    );
    assert_eq!(list.len(), 2);
    assert_eq!(list[0], shown(article(5, 1, "a"), user(1, "u"), false, false, 0, vec!["t".to_owned()]));
    assert_eq!(list[1], shown(article(6, 2, "b"), user(2, "v"), false, false, 0, vec![]));
}

#[test]
fn signed_in_reader_sees_flags_and_counts() {
    let reader = ReaderLookups {
        followings: [1].into_iter().collect::<HashSet<i32>>(),
        favorites: [6].into_iter().collect::<HashSet<i32>>(),
        fav_counts: [(6, 2)].into_iter().collect::<HashMap<i32, i64>>(),
    };
    let list = build_article_list(
        vec![(article(5, 1, "a"), user(1, "u")), (article(6, 2, "b"), user(2, "v"))],
        &Some(reader),
        HashMap::new(),
    );
    assert_eq!(list[0], shown(article(5, 1, "a"), user(1, "u"), true, false, 0, vec![]));
    assert_eq!(list[1], shown(article(6, 2, "b"), user(2, "v"), false, true, 2, vec![]));
}

#[test]
fn tags_go_with_the_first_listing_only() {
    let mut tags = HashMap::new();
    tags.insert(5, vec!["t".to_owned()]);
    let list = build_article_list(
        vec![(article(5, 1, "a"), user(1, "u")), (article(5, 1, "a"), user(1, "u"))],
        &None,
        tags,
    );
    assert_eq!(list[0].tag_list, vec!["t".to_owned()]);
    assert!(list[1].tag_list.is_empty());
}

#[test]
fn slugs_are_title_dash_ten_random() {
    let s = slugify("Hello, World!");
    assert!(is_slug_with_suffix(&s, "hello-world"), "{}", s);
    let hub = Hub::create(Config { jwt_secret_key: "k".to_owned() }, ());
    let t = hub.slugify("Rust is fun");
    assert!(is_slug_with_suffix(&t, "rust-is-fun"), "{}", t);
    assert_ne!(slugify("same"), slugify("same"));
}

#[test]
fn new_article_gets_a_slug() {
    let form = NewArticle {
        title: "My Title".to_owned(),
        description: "d".to_owned(),
        body: "b".to_owned(),
        tag_list: vec!["x".to_owned()],
    };
    let (record, tags) = new_article_record(&Hub::create(Config { jwt_secret_key: "k".to_owned() }, ()), &user(3, "u"), form);
    assert_eq!(record.author_id, 3);
    assert!(is_slug_with_suffix(&record.slug, "my-title"));
    assert_eq!(record.title, "My Title");
    assert_eq!(tags, vec!["x".to_owned()]);
}

#[test]
fn created_article_has_no_favorites() {
    let a = created_article(user(1, "u"), article(5, 1, "s"), vec!["x".to_owned()]);
    assert_eq!(a, shown(article(5, 1, "s"), user(1, "u"), false, false, 0, vec!["x".to_owned()]));
}

#[test]
fn only_the_author_may_change_an_article() {
    assert!(check_author(1, &user(1, "u")).is_ok());
    assert_eq!(check_author(2, &user(1, "u")).unwrap_err().kind, ErrorKind::Auth(ErrorKindAuth::Forbidden));
    let change = ArticleChange { title: None, description: None, body: None, tag_list: None };
    let e = plan_article_update(&Hub::create(Config { jwt_secret_key: "k".to_owned() }, ()), &user(1, "u"), &article(5, 2, "s"), change).unwrap_err();
    assert_eq!(e.kind, ErrorKind::Auth(ErrorKindAuth::Forbidden));
}

#[test]
fn update_plan_retitles_and_retags() {
    let change = ArticleChange {
        title: Some("New Title".to_owned()),
        description: None,
        body: Some("b2".to_owned()),
        tag_list: None,
    };
    let (tags, cols) = plan_article_update(&Hub::create(Config { jwt_secret_key: "k".to_owned() }, ()), &user(1, "u"), &article(5, 1, "s"), change).unwrap();
    assert!(tags.is_empty());
    assert!(is_slug_with_suffix(cols.slug.as_deref().unwrap(), "new-title"));
    assert_eq!(cols.title, Some("New Title".to_owned()));
    assert_eq!(cols.description, None);
    assert_eq!(cols.body, Some("b2".to_owned()));

    let change = ArticleChange { title: None, description: None, body: None, tag_list: Some(vec!["k".to_owned()]) };
    let (tags, cols) = plan_article_update(&Hub::create(Config { jwt_secret_key: "k".to_owned() }, ()), &user(1, "u"), &article(5, 1, "s"), change).unwrap();
    assert_eq!(tags, vec!["k".to_owned()]);
    assert_eq!(cols.slug, None);
}

#[test]
fn favorite_and_following_come_from_found_records() {
    assert_eq!(favorite_and_following(Some(3), None), (true, false));
    assert_eq!(favorite_and_following(None, Some(1)), (false, true));
}

#[test]
fn no_login_required() {
    let slug = "rust-is-fun".to_owned();
    let author = user(1, "author");
    let tags = vec!["a".to_owned(), "b".to_owned()];
    let res = article_for_reader(article(5, author.id, &slug), user(1, "author"), 0, None, tags.clone());
    let expected = Article::new_builder()
        .author(Profile::from_user(author, false))
        .article(article(5, 1, &slug), 0, tags)
        .build();
    assert_eq!(res, expected);
}

#[test]
fn with_login() {
    let slug = "rust-is-so-fun".to_owned();
    let author = user(1, "author");
    let res = article_for_reader(article(5, 1, &slug), user(1, "author"), 1, Some((true, true)), Vec::with_capacity(0));
    let expected = Article::new_builder()
        .author(Profile::from_user(author, true))
        .article(article(5, 1, &slug), 1, Vec::with_capacity(0))
        .favorited(true)
        .build();
    assert_eq!(res, expected);
}

#[test]
fn pages_default_and_are_capped() {
    assert_eq!(page(None, None), (20, 0));
    assert_eq!(page(Some(7), Some(3)), (7, 3));
    assert_eq!(page(Some(10_000), Some(501)), (500, 500));
    assert_eq!(feed_page(&FeedParams { limit: None, offset: Some(40) }), (20, 40));
    let s = search_for(Params {
        tag: Some("t".to_owned()),
        author: None,
        favorited: Some("jake".to_owned()),
        limit: Some(600),
        offset: None,
    });
    assert_eq!(s.tag, Some("t".to_owned()));
    assert_eq!(s.author, None);
    assert_eq!(s.favorited_by, Some("jake".to_owned()));
    assert_eq!((s.limit, s.offset), (500, 0));
}
