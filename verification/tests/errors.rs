use conduit::db::{if_changed, may_update, DbErrorKind};
use conduit::error::{error_of, misc_error, validation_error, Error, ErrorKind, ErrorKindAuth, ErrorResponse};

fn body(res: &ErrorResponse) -> Vec<String> {
    res.body.clone()
}

#[test]
fn auth_kinds_have_their_messages() {
    assert_eq!(ErrorKindAuth::NoAuthToken.message(), "no auth token");
    assert_eq!(ErrorKindAuth::InvalidToken.message(), "invalid token");
    assert_eq!(ErrorKindAuth::InvalidUser.message(), "invalid user");
    assert_eq!(ErrorKindAuth::Forbidden.message(), "forbidden");
}

#[test]
fn kinds_have_their_messages() {
    assert_eq!(ErrorKind::Validation(vec!["x".to_owned()]).message(), "validation failure");
    assert_eq!(ErrorKind::Auth(ErrorKindAuth::Forbidden).message(), "authentication failure: forbidden");
    assert_eq!(ErrorKind::Db.message(), "database operation failure");
    assert_eq!(ErrorKind::NotFound.message(), "record not found");
    assert_eq!(ErrorKind::Misc("hash password".to_owned()).message(), "hash password");
}

#[test]
fn validation_errors_answer_422_with_every_message() {
    let e = error_of(ErrorKind::Validation(vec!["a".to_owned(), "b".to_owned()]));
    let res = e.response();
    assert_eq!(res.status, 422);
    assert_eq!(body(&res), vec!["a".to_owned(), "b".to_owned()]);
}

#[test]
fn auth_errors_answer_401() {
    let e = Error::from(ErrorKindAuth::NoAuthToken);
    let res = e.response();
    assert_eq!(res.status, 401);
    assert_eq!(body(&res), vec!["authentication failure: no auth token".to_owned()]);
}

#[test]
fn db_and_misc_errors_answer_500() {
    let res = Error::from(ErrorKind::Db).response();
    assert_eq!(res.status, 500);
    assert_eq!(body(&res), vec!["database operation failure".to_owned()]);
    let res = misc_error("decode JWT").response();
    assert_eq!(res.status, 500);
    assert_eq!(body(&res), vec!["decode JWT".to_owned()]);
}

#[test]
fn not_found_errors_answer_404() {
    let res = Error::from(ErrorKind::NotFound).response();
    assert_eq!(res.status, 404);
    assert_eq!(body(&res), vec!["record not found".to_owned()]);
    let res = ErrorResponse::not_found();
    assert_eq!(res.status, 404);
    assert_eq!(body(&res), vec!["not found".to_owned()]);
}

#[test]
fn validation_error_holds_one_message() {
    let e = validation_error("You cannot follow yourself");
    assert_eq!(e.kind(), &ErrorKind::Validation(vec!["You cannot follow yourself".to_owned()]));
    assert_eq!(e.message(), "validation failure");
}

#[test]
fn store_failures_become_error_kinds() {
    assert_eq!(Error::from(DbErrorKind::NotFound).kind, ErrorKind::NotFound);
    assert_eq!(Error::from(DbErrorKind::Other).kind, ErrorKind::Db);
    assert_eq!(Error::from(DbErrorKind::QueryBuilder).kind, ErrorKind::Db);
}

#[test]
fn empty_updates_are_not_failures() {
    assert_eq!(may_update::<i32>(Ok(7)), Ok(Some(7)));
    assert_eq!(may_update::<i32>(Err(DbErrorKind::QueryBuilder)), Ok(None));
    assert_eq!(may_update::<i32>(Err(DbErrorKind::NotFound)), Err(DbErrorKind::NotFound));
    assert_eq!(may_update::<i32>(Err(DbErrorKind::Other)), Err(DbErrorKind::Other));
}

#[test]
fn if_changed_keeps_only_real_changes() {
    assert_eq!(if_changed(Some(3), &2), Some(3));
    assert_eq!(if_changed(Some(2), &2), None);
    assert_eq!(if_changed(None, &2), None);
    assert_eq!(if_changed(Some("b".to_owned()), &"a".to_owned()), Some("b".to_owned()));
    assert_eq!(if_changed(Some("a".to_owned()), &"a".to_owned()), None);
    assert_eq!(if_changed(Some("bob".to_string()), &"bob".to_string()), None);
    assert_eq!(if_changed(Some(Some("x".to_owned())), &Some("x".to_owned())), None);
    assert_eq!(if_changed(Some(None), &Some("x".to_owned())), Some(None));
    assert_eq!(if_changed(Some(None::<String>), &None), None);
}
