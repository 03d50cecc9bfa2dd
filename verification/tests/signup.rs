use conduit::app::users::validate_signup::{is_white_space_char, trim, utf8_len_exceeds, validate_signup};
use conduit::app::users::SignupUser;
use conduit::error::ErrorKind;

fn form(name: &str, email: &str) -> SignupUser {
    SignupUser { username: name.to_owned(), email: email.to_owned(), password: "password".to_owned() }
}

fn errors(name: &str, email: &str, name_taken: bool, email_taken: bool) -> Vec<String> {
    match validate_signup(&form(name, email), name_taken, email_taken) {
        Ok(()) => vec![],
        Err(e) => match e.kind {
            ErrorKind::Validation(msgs) => msgs,
            other => panic!("unexpected error kind {:?}", other),
        },
    }
}

#[test]
fn clean_form_passes() {
    assert!(validate_signup(&form("hello1", "a@b.cc"), false, false).is_ok());
}

#[test]
fn surrounding_white_space_is_ignored() {
    assert!(validate_signup(&form("  hello\t", "\u{3000}a@b.cc\n"), false, false).is_ok());
}

#[test]
fn blank_username_is_refused() {
    assert_eq!(
        errors("   ", "a@b.cc", false, false),
        vec!["username can't be blank".to_owned(), "username is invalid format".to_owned()]
    );
}

#[test]
fn long_username_is_refused() {
    assert_eq!(
        errors("abcdefghijklmnopqrstu", "a@b.cc", false, false),
        vec!["username is too long (max 20 character)".to_owned()]
    );
    assert!(errors("abcdefghijklmnopqrst", "a@b.cc", false, false).is_empty());
}

#[test]
fn username_length_counts_bytes() {
    // eleven two-byte characters: 22 bytes
    let msgs = errors("ééééééééééé", "a@b.cc", false, false);
    assert_eq!(
        msgs,
        vec!["username is too long (max 20 character)".to_owned(), "username is invalid format".to_owned()]
    );
}

#[test]
fn username_format_is_letters_and_digits() {
    assert_eq!(errors("he llo", "a@b.cc", false, false), vec!["username is invalid format".to_owned()]);
    assert_eq!(errors("he-llo", "a@b.cc", false, false), vec!["username is invalid format".to_owned()]);
    assert_eq!(errors("He_llo9", "a@b.cc", false, false), vec!["username is invalid format".to_owned()]);
    assert!(errors("Hello9", "a@b.cc", false, false).is_empty());
}

fn password_errors(password: &str) -> Vec<String> {
    let form = SignupUser { username: "alice".to_owned(), email: "alice@x.io".to_owned(), password: password.to_owned() };
    match validate_signup(&form, false, false) {
        Ok(()) => vec![],
        Err(e) => match e.kind {
            ErrorKind::Validation(msgs) => msgs,
            other => panic!("unexpected error kind {:?}", other),
        },
    }
}

#[test]
fn password_must_be_8_to_72_bytes() {
    assert_eq!(password_errors("short"), vec!["password is too short (min 8 character)".to_owned()]);
    assert_eq!(password_errors("1234567"), vec!["password is too short (min 8 character)".to_owned()]);
    assert!(password_errors("12345678").is_empty());
    assert!(password_errors(&"x".repeat(72)).is_empty());
    assert_eq!(password_errors(&"x".repeat(73)), vec!["password is too long (max 72 character)".to_owned()]);
    // four two-byte characters: 8 bytes
    assert!(password_errors("éééé").is_empty());
}

#[test]
fn taken_username_and_email_are_named() {
    assert_eq!(
        errors(" hello ", " a@b.cc ", true, true),
        vec!["username hello already exists".to_owned(), "email a@b.cc already exists".to_owned()]
    );
}

#[test]
fn email_rules() {
    assert_eq!(
        errors("hello", "", false, false),
        vec!["email can't be blank".to_owned(), "email is invalid format".to_owned()]
    );
    assert_eq!(errors("hello", "ab.cc", false, false), vec!["email is invalid format".to_owned()]);
    assert_eq!(errors("hello", "a@bcc", false, false), vec!["email is invalid format".to_owned()]);
    assert_eq!(errors("hello", "a @b.cc", false, false), vec!["email is invalid format".to_owned()]);
    assert_eq!(errors("hello", "@b.cc", false, false), vec!["email is invalid format".to_owned()]);
    assert!(errors("hello", "a.b@c.d.e", false, false).is_empty());
}

#[test]
fn every_rule_is_reported_in_order() {
    let form = SignupUser { username: "".to_owned(), email: "".to_owned(), password: "".to_owned() };
    let msgs = match validate_signup(&form, true, true).unwrap_err().kind {
        ErrorKind::Validation(msgs) => msgs,
        other => panic!("unexpected error kind {:?}", other),
    };
    assert_eq!(
        msgs,
        vec![
            "username can't be blank".to_owned(),
            "username is invalid format".to_owned(),
            "username  already exists".to_owned(),
            "email can't be blank".to_owned(),
            "email is invalid format".to_owned(),
            "email  already exists".to_owned(),
            "password is too short (min 8 character)".to_owned(),
        ]
    );
}

#[test]
fn trim_drops_unicode_white_space() {
    assert_eq!(trim("  a b  "), "a b");
    assert_eq!(trim("\u{2003}x\u{85}"), "x");
    assert_eq!(trim("   "), "");
    assert_eq!(trim(""), "");
    assert_eq!(trim(trim(" \tq ")), "q");
}

#[test]
fn white_space_is_the_unicode_property() {
    assert!(is_white_space_char(' '));
    assert!(is_white_space_char('\u{a0}'));
    assert!(is_white_space_char('\u{3000}'));
    assert!(!is_white_space_char('a'));
    assert!(!is_white_space_char('\u{200b}'));
}

#[test]
fn byte_length_is_utf8() {
    assert!(!utf8_len_exceeds("abc", 3));
    assert!(utf8_len_exceeds("abcd", 3));
    assert!(utf8_len_exceeds("é€", 4));
    assert!(!utf8_len_exceeds("é€", 5));
    assert!(utf8_len_exceeds("𝄞", 3));
}
