use chrono::{NaiveDate, NaiveDateTime};
use conduit::app::articles::comments::add_comment::{added_comment, new_comment_record};
use conduit::app::articles::comments::list_comments::{build_comment_list, comment_author_ids};
use conduit::app::articles::comments::NewComment;
use conduit::app::profiles::{followed_profile, new_follower, profile_for_reader, unfollowed_profile};
use conduit::app::res::{Comment, Profile};
use conduit::error::ErrorKind;
use conduit::mdl;
use std::collections::HashSet;

fn at(h: u32) -> NaiveDateTime {
    NaiveDate::from_ymd_opt(2018, 1, 1).unwrap().and_hms_opt(h, 10, 11).unwrap()
}

fn user(id: i32, name: &str) -> mdl::User {
    mdl::User {
        id,
        username: name.to_owned(),
        email: format!("{}@a.a", name),
        bio: None,
        image: None,
        created_at: at(9),
        updated_at: at(9),
    }
}

fn comment(id: i32, user_id: i32) -> mdl::Comment {
    mdl::Comment { id, article_id: 5, user_id, body: format!("c{}", id), created_at: at(10), updated_at: at(11) }
}

#[test]
fn nobody_follows_themselves() {
    let e = new_follower(&user(1, "u"), 1).unwrap_err();
    assert_eq!(e.kind, ErrorKind::Validation(vec!["You cannot follow yourself".to_owned()]));
    let f = new_follower(&user(1, "u"), 2).unwrap();
    assert_eq!(f, mdl::NewFollower { user_id: 1, follower_id: 2 });
}

#[test]
fn follow_and_unfollow_show_the_flag() {
    assert_eq!(followed_profile(user(1, "u")), Profile::from_user(user(1, "u"), true));
    assert_eq!(unfollowed_profile(user(1, "u")), Profile::from_user(user(1, "u"), false));
    assert_eq!(profile_for_reader(user(1, "u"), None), Profile::from_user(user(1, "u"), false));
    assert_eq!(profile_for_reader(user(1, "u"), Some(true)), Profile::from_user(user(1, "u"), true));
}

#[test]
fn comments_are_stored_under_article_and_author() {
    let r = new_comment_record(5, &user(2, "v"), NewComment { body: "hi".to_owned() });
    assert_eq!(r, mdl::NewComment { article_id: 5, user_id: 2, body: "hi".to_owned() });
    assert_eq!(
        added_comment(comment(7, 2), user(2, "v")),
        Comment::new(comment(7, 2), Profile::from_user(user(2, "v"), false))
    );
}

#[test]
fn comments_show_whom_the_reader_follows() {
    let list = vec![(comment(1, 2), user(2, "v")), (comment(2, 3), user(3, "w"))];
    assert_eq!(comment_author_ids(&list), vec![2, 3]);
    let followings: HashSet<i32> = [3].into_iter().collect();
    let shown = build_comment_list(list, &Some(followings));
    assert_eq!(shown.len(), 2);
    assert_eq!(shown[0], Comment::new(comment(1, 2), Profile::from_user(user(2, "v"), false)));
    assert_eq!(shown[1], Comment::new(comment(2, 3), Profile::from_user(user(3, "w"), true)));
    let anon = build_comment_list(vec![(comment(2, 3), user(3, "w"))], &None);
    assert_eq!(anon[0], Comment::new(comment(2, 3), Profile::from_user(user(3, "w"), false)));
}

#[test]
fn numbers_are_written_in_decimal() {
    let mut s = String::new();
    conduit::text::push_decimal(&mut s, i64::MIN);
    assert_eq!(s, "-9223372036854775808");
    let mut s = "x".to_owned();
    conduit::text::push_decimal(&mut s, 1050);
    assert_eq!(s, "x1050");
}
