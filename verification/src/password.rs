//! Passwords are stored as PBKDF2-HMAC-SHA256 hashes with a random salt, and
//! checked against them.
use vstd::prelude::*;
use crate::error::{Error, misc_error};
use crate::jwt::is_misc;
use crate::auth::has_prefix;

verus! {

/// How many PBKDF2 iterations a password hash takes.
pub const HASH_ITERATION_COUNT: u32 = 10000;

/// A password hash; never a raw password.
#[derive(Debug, Clone, PartialEq)]
pub struct HashedPassword(pub String);

/// Whether `pbkdf2::pbkdf2_check` accepts the password for the stored hash.
pub uninterp spec fn pbkdf2_accepts(password: Seq<char>, hashed: Seq<char>) -> bool;

/// Hashes a password with `pbkdf2::pbkdf2_simple` and `c` iterations; `None`
/// when no random salt could be had. Claimed, as the crate documents: the
/// hash made is accepted by `pbkdf2_check` for the same password, and it is
/// written `$rpbkdf2$0$<base64(c)>$<base64(salt)>$<base64(hash)>$`, with `c`
/// as its four big-endian bytes (for 10000, `AAAnEA==`). The salt and the
/// derived key are not stated: the salt is random.
#[verifier::external_body]
fn pbkdf2_hash(password: &str, c: u32) -> (hashed: Option<String>)
    ensures
        hashed matches Some(h) ==> pbkdf2_accepts(password@, h@),
        hashed matches Some(h) ==> has_prefix(h@, "$rpbkdf2$0$"@),
        hashed matches Some(h) ==> (c == 10000 ==> has_prefix(h@, "$rpbkdf2$0$AAAnEA==$"@)),
{
    pbkdf2::pbkdf2_simple(password, c).ok()
}

/// Whether `pbkdf2::pbkdf2_check` accepts the password for the hash.
#[verifier::external_body]
fn pbkdf2_verify(password: &str, hashed: &str) -> (ok: bool)
    ensures
        ok == pbkdf2_accepts(password@, hashed@),
{
    pbkdf2::pbkdf2_check(password, hashed).is_ok()
}

/// How a hash made with `HASH_ITERATION_COUNT` iterations starts: the
/// format's name, its version, and the count in base64.
pub open spec fn hash_header() -> Seq<char> {
    "$rpbkdf2$0$AAAnEA==$"@
}

/// A hash of the password, with `HASH_ITERATION_COUNT` iterations, that the
/// password check accepts for this password.
pub fn hash_password(password: &str) -> (res: Result<HashedPassword, Error>)
    ensures
        res matches Ok(h) ==> pbkdf2_accepts(password@, h.0@),
        res matches Ok(h) ==> has_prefix(h.0@, hash_header()),
        res matches Err(e) ==> is_misc(e, "hash password"@),
{
    match pbkdf2_hash(password, HASH_ITERATION_COUNT) {
        Some(h) => Ok(HashedPassword(h)),
        None => Err(misc_error("hash password")),
    }
}

/// Whether the input is the password the stored hash was made from.
pub fn is_correct_password(input: &str, hashed_value: &str) -> (ok: bool)
    ensures
        ok == pbkdf2_accepts(input@, hashed_value@),
{
    pbkdf2_verify(input, hashed_value)
}

/// Hashes passwords. What a hasher makes is described by `makes_hash`; a
/// hasher that does not describe it claims nothing of its hashes.
pub trait CanHashPassword {
    /// Whether `hash` is a hash of `password` as this hasher makes them.
    open spec fn makes_hash(&self, password: Seq<char>, hash: Seq<char>) -> bool {
        true
    }

    fn hash_password(&self, password: &str) -> (res: Result<HashedPassword, Error>)
        ensures
            res matches Ok(h) ==> self.makes_hash(password@, h.0@),
    ;
}

/// Checks passwords against stored hashes. Which pairs a checker accepts is
/// described by `accepts`.
pub trait CanCheckPassword {
    /// Whether this checker accepts `input` for the stored `hashed_value`.
    spec fn accepts(&self, input: Seq<char>, hashed_value: Seq<char>) -> bool;

    fn is_correct_password(&self, input: &str, hashed_value: &str) -> (ok: bool)
        ensures
            ok == self.accepts(input@, hashed_value@),
    ;
}

/// The service hashes with PBKDF2 and `HASH_ITERATION_COUNT` iterations.
impl<P> CanHashPassword for crate::hub::Hub<P> {
    open spec fn makes_hash(&self, password: Seq<char>, hash: Seq<char>) -> bool {
        pbkdf2_accepts(password, hash) && has_prefix(hash, hash_header())
    }

    fn hash_password(&self, password: &str) -> (res: Result<HashedPassword, Error>)
        ensures
            res matches Err(e) ==> is_misc(e, "hash password"@),
    {
        hash_password(password)
    }
}

/// The service checks with `pbkdf2_check`.
impl<P> CanCheckPassword for crate::hub::Hub<P> {
    open spec fn accepts(&self, input: Seq<char>, hashed_value: Seq<char>) -> bool {
        pbkdf2_accepts(input, hashed_value)
    }

    fn is_correct_password(&self, input: &str, hashed_value: &str) -> (ok: bool) {
        is_correct_password(input, hashed_value)
    }
}

/// A password the service hashed is let in by the service's check: whatever
/// hash the service makes of a password, its check accepts that same whole
/// password for it, so signing in with the password one registered with
/// succeeds.
pub proof fn service_accepts_what_it_hashed<P>(hub: crate::hub::Hub<P>, password: Seq<char>, hash: Seq<char>)
    requires
        hub.makes_hash(password, hash),
    ensures
        hub.accepts(password, hash),
{
}

} // verus!
