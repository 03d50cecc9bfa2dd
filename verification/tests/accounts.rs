use chrono::{NaiveDate, NaiveDateTime};
use conduit::app::res::User;
use conduit::app::users::authenticate::authenticate;
use conduit::app::users::register_user::{new_user, registration};
use conduit::app::users::update_user::{plan_user_update, updated_user, user_change, UserChanges};
use conduit::app::users::validate_signup::validate_signup;
use conduit::app::users::{user_changes_from_form, SigninUser, SignupUser, UserChange};
use conduit::error::ErrorKind;
use conduit::mdl;
use conduit::config::Config;
use conduit::hub::Hub;
use conduit::password::{hash_password, is_correct_password, CanHashPassword, HashedPassword};
use conduit::error::Error;

fn at(h: u32) -> NaiveDateTime {
    NaiveDate::from_ymd_opt(2018, 1, 1).unwrap().and_hms_opt(h, 10, 11).unwrap()
}

fn stored(id: i32, name: &str, bio: Option<&str>) -> mdl::User {
    mdl::User {
        id,
        username: name.to_owned(),
        email: format!("{}@a.a", name),
        bio: bio.map(|b| b.to_owned()),
        image: None,
        created_at: at(9),
        updated_at: at(9),
    }
}

fn hub() -> Hub<()> {
    Hub::create(Config { jwt_secret_key: "k".to_owned() }, ())
}

fn cred(user_id: i32, hash: &str) -> mdl::Credential {
    mdl::Credential { user_id, password_hash: hash.to_owned(), created_at: at(9), updated_at: at(9) }
}

#[test]
fn sign_up_registers_user() {
    let form = SignupUser {
        username: "hello".to_owned(),
        email: "a@b.cc".to_owned(),
        password: "password".to_owned(),
    };
    assert!(validate_signup(&form, false, false).is_ok());
    let new = new_user(&form);
    let created_at = NaiveDate::from_ymd_opt(2018, 1, 1).unwrap().and_hms_opt(9, 10, 11).unwrap();
    let user = mdl::User {
        id: 1,
        username: new.username,
        email: new.email,
        bio: new.bio,
        image: new.image,
        created_at,
        updated_at: created_at,
    };
    let token = format!("jwt-token-{}", user.id);
    let res = User::from_model(token, user);
    assert_eq!(
        res,
        User {
            username: "hello".to_owned(),
            email: "a@b.cc".to_owned(),
            token: "jwt-token-1".to_owned(),
            bio: None,
            image: None,
        }
    );
}

struct Mock;

impl CanHashPassword for Mock {
    fn hash_password(&self, password: &str) -> Result<HashedPassword, Error> {
        Ok(HashedPassword(format!("{}-hashed", password)))
    }
}

#[test]
fn register_with_hashed_password() {
    let form = SignupUser {
        username: "hello".to_owned(),
        email: "hello@example.com".to_owned(),
        password: "password".to_owned(),
    };
    let mock = Mock;
    let (user, hash) = registration(&mock, &form).unwrap();
    assert_eq!(form.email, user.email);
    assert_eq!(hash.0, format!("{}-hashed", form.password));
}

#[test]
fn service_registration_hashes_with_pbkdf2() {
    let form = SignupUser {
        username: "hello".to_owned(),
        email: "hello@example.com".to_owned(),
        password: "password".to_owned(),
    };
    let (user, hash) = registration(&hub(), &form).unwrap();
    assert_eq!(user.username, "hello");
    assert_eq!(user.bio, None);
    assert!(hash.0.starts_with("$rpbkdf2$0$AAAnEA==$"));
    assert!(is_correct_password(&form.password, &hash.0));
}

#[test]
fn sign_in_needs_the_right_password() {
    let h = hash_password("secret").unwrap();
    let form = SigninUser { email: "u@a.a".to_owned(), password: "secret".to_owned() };
    let user = authenticate(&hub(), &form, Some((stored(1, "u", None), cred(1, &h.0)))).unwrap();
    assert_eq!(user.id, 1);

    let wrong = SigninUser { email: "u@a.a".to_owned(), password: "secreT".to_owned() };
    let e = authenticate(&hub(), &wrong, Some((stored(1, "u", None), cred(1, &h.0)))).unwrap_err();
    assert_eq!(e.kind, ErrorKind::Validation(vec!["email or password is invalid".to_owned()]));
    let e = authenticate(&hub(), &form, None).unwrap_err();
    assert_eq!(e.kind, ErrorKind::Validation(vec!["email or password is invalid".to_owned()]));
}

#[test]
fn only_real_changes_are_written() {
    let current = stored(1, "u", Some("old"));
    let change = user_change(
        &current,
        mdl::UserChange {
            username: Some("u".to_owned()),
            email: Some("new@a.a".to_owned()),
            bio: Some(Some("old".to_owned())),
            image: Some(Some("pic".to_owned())),
        },
    );
    assert_eq!(change.username, None);
    assert_eq!(change.email, Some("new@a.a".to_owned()));
    assert_eq!(change.bio, None);
    assert_eq!(change.image, Some(Some("pic".to_owned())));
}

#[test]
fn form_without_bio_clears_it() {
    let form = UserChange { email: None, username: None, bio: None, image: None, password: Some("pw".to_owned()) };
    let changes = user_changes_from_form(form);
    assert_eq!(changes.user.bio, Some(None));
    assert_eq!(changes.new_password, Some("pw".to_owned()));
    let current = stored(1, "u", Some("old"));
    let (cols, hash) = plan_user_update(&hub(), &current, changes).unwrap();
    assert_eq!(cols.bio, Some(None));
    assert_eq!(cols.image, None);
    assert!(is_correct_password("pw", &hash.unwrap().0));
}

#[test]
fn no_password_no_hash() {
    let changes = UserChanges {
        user: mdl::UserChange { username: None, email: None, bio: None, image: None },
        new_password: None,
    };
    let (cols, hash) = plan_user_update(&hub(), &stored(1, "u", None), changes).unwrap();
    assert!(hash.is_none());
    assert_eq!(cols, mdl::UserChange { username: None, email: None, bio: None, image: None });
}

#[test]
fn unchanged_account_is_kept() {
    assert_eq!(updated_user(stored(1, "u", None), None).username, "u");
    assert_eq!(updated_user(stored(1, "u", None), Some(stored(1, "v", None))).username, "v");
}
