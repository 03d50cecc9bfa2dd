//! The tokens that tell who a request comes from: JSON Web Tokens signed
//! with HS256 under the service's secret key, whose claims are the user's id
//! and an expiry time three weeks ahead.
use vstd::prelude::*;
use vstd::utf8::encode_utf8;
use crate::config::HaveConfig;
use crate::error::{Error, ErrorKind, misc_error};
use crate::text::{decimal, push_decimal};
use jsonwebtoken::errors::ErrorKind as JwtErrorKind;

verus! {

/// The claims of a token: the user's id and when the token expires, in
/// seconds since the Unix epoch.
#[derive(Debug, Clone, Copy, PartialEq, Eq, Structural)]
pub struct Payload {
    pub id: i32,
    pub exp: i64,
}

/// How long a token is valid: 21 days, in seconds.
pub const TOKEN_LIFETIME_SECS: i64 = 1_814_400;

/// The claims `{"id":<id>,"exp":<exp>}` as JSON text.
pub open spec fn payload_json(p: Payload) -> Seq<char> {
    "{\"id\":"@ + decimal(p.id as int) + ",\"exp\":"@ + decimal(p.exp as int) + "}"@
}

/// The claims of a token for `user_id` made at time `now`.
pub open spec fn payload_at(user_id: i32, now: i64) -> Payload {
    Payload { id: user_id, exp: (now + TOKEN_LIFETIME_SECS) as i64 }
}

/// The latest time `chrono` can represent, in seconds since the epoch, is
/// below this bound.
pub open spec fn time_bound() -> int {
    10_000_000_000_000
}

/// The token `jsonwebtoken::encode` makes with the default header (HS256)
/// for these JSON claims under this secret.
pub uninterp spec fn jwt_hs256(claims: Seq<char>, key: Seq<u8>) -> Seq<char>;

/// Signs the JSON claims with `jsonwebtoken::encode`, the default header and
/// `EncodingKey::from_secret(key)`; the claims are handed over verbatim as a
/// `serde_json` raw value. `None` when the claims are not JSON or signing
/// fails. Claimed: a token made is the function `jwt_hs256` of the claims and
/// the key, since HS256 signing is deterministic; and claims of the shape
/// `payload_json` makes are JSON, which HMAC signing never refuses, so a
/// token is made for them.
#[verifier::external_body]
fn jwt_encode_hs256(claims: &str, key: &[u8]) -> (token: Option<String>)
    ensures
        token matches Some(t) ==> t@ == jwt_hs256(claims@, key@),
        (exists|p: Payload| claims@ == #[trigger] payload_json(p)) ==> token is Some,
{
    let raw = serde_json::value::RawValue::from_string(claims.to_owned()).ok()?;
    jsonwebtoken::encode(
        &jsonwebtoken::Header::default(),
        &raw,
        &jsonwebtoken::EncodingKey::from_secret(key),
    ).ok()
}

/// The current time from `chrono::Utc::now().timestamp()`, in seconds since
/// the epoch. Claimed: it is below `time_bound()`, since `Utc::now` only
/// returns times that `DateTime::from_timestamp` accepts (years up to
/// 262142). Nothing else is stated: it is the clock.
#[verifier::external_body]
fn utc_now_timestamp() -> (t: i64)
    ensures
        t < time_bound(),
{
    chrono::Utc::now().timestamp()
}

/// What checking a token gave: its claims `id` and `exp` when it is valid
/// (each `None` when absent or not an `i64`), `Malformed` when it is not
/// base64, JSON or UTF-8, and `Rejected` for any other failure (bad shape,
/// bad signature, expired, ...).
#[derive(Debug, Clone, Copy, PartialEq, Eq, Structural)]
pub enum JwtCheck {
    Claims { id: Option<i64>, exp: Option<i64> },
    Malformed,
    Rejected,
}

/// What `jsonwebtoken::decode` gives for `token` under the HS256 secret
/// `key` with the default validation but its `exp` check switched off.
pub uninterp spec fn jwt_hs256_claims(token: Seq<char>, key: Seq<u8>) -> JwtCheck;

/// What the `exp` check adds, at clock reading `now`, to a token whose check
/// without it gave `unchecked`: an `exp` below zero is not a `u64` (a JSON
/// error), one below `now` has expired, and anything else stands. `None`
/// where this is not stated: claims whose `exp` is not an `i64`.
pub open spec fn exp_checked(unchecked: JwtCheck, now: u64) -> Option<JwtCheck> {
    match unchecked {
        JwtCheck::Claims { exp: Some(e), .. } => Some(
            if e < 0 {
                JwtCheck::Malformed
            } else if e < now {
                JwtCheck::Rejected
            } else {
                unchecked
            },
        ),
        JwtCheck::Claims { exp: None, .. } => None,
        _ => Some(unchecked),
    }
}

/// Checks a token with `jsonwebtoken::decode` under
/// `DecodingKey::from_secret(key)` and the default validation (HS256), its
/// `exp` check on or off as `check_exp` says, reading the claims as a
/// `serde_json::Value` and taking the fields `id` and `exp` with
/// `Value::as_i64`; the error kinds `Base64`, `Json` and `Utf8` become
/// `Malformed`, every other error `Rejected`.
/// Claimed, as the crate's source shows: without the `exp` check the outcome
/// is `jwt_hs256_claims` of the token and the key (base64, JSON and the HMAC
/// signature check are deterministic), and a token that `encode` made under
/// the same key for the claims `payload_json(p)` reads back as `p`'s `id` and
/// `exp`. With the check, the outcome is what `exp_checked` makes of that at
/// the clock reading `jsonwebtoken::validate` takes (`SystemTime::now`, in
/// seconds); which reading it was is not stated.
#[verifier::external_body]
fn jwt_decode_hs256(token: &str, key: &[u8], check_exp: bool) -> (check: JwtCheck)
    ensures
        !check_exp ==> check == jwt_hs256_claims(token@, key@),
        !check_exp ==> forall|p: Payload| token@ == #[trigger] jwt_hs256(payload_json(p), key@)
            ==> check == (JwtCheck::Claims { id: Some(p.id as i64), exp: Some(p.exp) }),
        check_exp ==> exists|now: u64|
            #[trigger] exp_checked(jwt_hs256_claims(token@, key@), now) is None
                || exp_checked(jwt_hs256_claims(token@, key@), now) == Some(check),
{
    let key = jsonwebtoken::DecodingKey::from_secret(key);
    let validation = jsonwebtoken::Validation { validate_exp: check_exp, ..Default::default() };
    match jsonwebtoken::decode::<serde_json::Value>(token, &key, &validation) {
        Ok(data) => JwtCheck::Claims {
            id: data.claims.get("id").and_then(serde_json::Value::as_i64),
            exp: data.claims.get("exp").and_then(serde_json::Value::as_i64),
        },
        Err(err) => match err.kind() {
            JwtErrorKind::Base64(_) => JwtCheck::Malformed,
            JwtErrorKind::Json(_) => JwtCheck::Malformed,
            JwtErrorKind::Utf8(_) => JwtCheck::Malformed,
            _ => JwtCheck::Rejected,
        },
    }
}

/// The claims of a token for `user_id` made at time `now`.
pub fn token_payload(user_id: i32, now: i64) -> (p: Payload)
    requires
        now < time_bound(),
    ensures
        p == payload_at(user_id, now),
{
    Payload { id: user_id, exp: now + TOKEN_LIFETIME_SECS }
}

/// The claims as the JSON text that is signed.
pub fn payload_to_json(p: &Payload) -> (s: String)
    ensures
        s@ == payload_json(*p),
{
    let mut s = "{\"id\":".to_owned();
    push_decimal(&mut s, p.id as i64);
    s.append(",\"exp\":");
    push_decimal(&mut s, p.exp);
    s.append("}");
    s
}

/// Whether the error only says that the named step failed.
pub open spec fn is_misc(e: Error, msg: Seq<char>) -> bool {
    e.kind matches ErrorKind::Misc(m) && m@ == msg
}

/// A token for `user_id`, signed with the secret key, that expires 21 days
/// after the current time. Signing such claims never fails.
pub fn generate_token(secret_key: &String, user_id: i32) -> (res: Result<String, Error>)
    ensures
        res is Ok,
        res matches Ok(t) ==> exists|now: i64| now < time_bound()
            && t@ == jwt_hs256(payload_json(#[trigger] payload_at(user_id, now)), encode_utf8(secret_key@)),
{
    let now = utc_now_timestamp();
    let payload = token_payload(user_id, now);
    let claims = payload_to_json(&payload);
    match jwt_encode_hs256(claims.as_str(), secret_key.as_str().as_bytes()) {
        Some(token) => Ok(token),
        None => Err(misc_error("generate JWT")),
    }
}

/// The outcome of decoding a token, given what checking it gave: the claims
/// when they hold an `id` that fits an `i32` and an `exp`, `Invalid` when the
/// token was rejected, and an error when it was malformed or its claims do
/// not have that shape.
pub open spec fn decoded_from_spec(check: JwtCheck) -> Option<Decoded> {
    match check {
        JwtCheck::Claims { id: Some(id), exp: Some(exp) } =>
            if i32::MIN <= id <= i32::MAX { Some(Decoded::Valid(Payload { id: id as i32, exp })) } else { None },
        JwtCheck::Rejected => Some(Decoded::Invalid),
        _ => None,
    }
}

/// The result of decoding a token.
#[derive(Debug, Clone, Copy, PartialEq, Eq, Structural)]
pub enum Decoded {
    Valid(Payload),
    Invalid,
}

/// What a decoded token comes to, given what checking it gave.
pub fn decoded_from(check: JwtCheck) -> (res: Result<Decoded, Error>)
    ensures
        res matches Ok(d) ==> decoded_from_spec(check) == Some(d),
        res is Err ==> decoded_from_spec(check) is None,
        res matches Err(e) ==> is_misc(e, "decode JWT"@),
{
    match check {
        JwtCheck::Claims { id: Some(id), exp: Some(exp) } => {
            if i32::MIN as i64 <= id && id <= i32::MAX as i64 {
                Ok(Decoded::Valid(Payload { id: id as i32, exp }))
            } else {
                Err(misc_error("decode JWT"))
            }
        },
        JwtCheck::Rejected => Ok(Decoded::Invalid),
        _ => Err(misc_error("decode JWT")),
    }
}

/// What decoding gives, at clock reading `now`, for a token whose check
/// without the `exp` check gave `unchecked`: the token's payload when its
/// shape is right and it has not expired, `Invalid` when the token is
/// rejected or has expired, and `None` (the "decode JWT" error) when it is
/// malformed, its claims do not have the payload's shape, or its `exp` is
/// below zero.
pub open spec fn decode_outcome(unchecked: JwtCheck, now: u64) -> Option<Decoded> {
    match decoded_from_spec(unchecked) {
        Some(Decoded::Valid(p)) =>
            if p.exp < 0 {
                None
            } else if p.exp < now {
                Some(Decoded::Invalid)
            } else {
                Some(Decoded::Valid(p))
            },
        other => other,
    }
}

/// Whether `res` is what decoding gives for the outcome `outcome`: that
/// outcome, or the error that says decoding failed where there is none.
pub open spec fn decodes_to(res: Result<Decoded, Error>, outcome: Option<Decoded>) -> bool {
    match res {
        Ok(d) => outcome == Some(d),
        Err(e) => outcome is None && is_misc(e, "decode JWT"@),
    }
}

/// Claims that read back as a payload's `id` and `exp` (as those of a token
/// made for that payload do, by `decode_token`'s contract) decode to that
/// payload until the clock passes its expiry, and to `Invalid` after that.
pub proof fn fresh_token_reads_back(p: Payload, now: u64)
    requires
        0 <= p.exp,
    ensures
        decode_outcome(JwtCheck::Claims { id: Some(p.id as i64), exp: Some(p.exp) }, now)
            == (if now <= p.exp { Some(Decoded::Valid(p)) } else { Some(Decoded::Invalid) }),
{
}

/// Decodes a token signed with the secret key. Its shape and signature are
/// checked first, then its expiry against the clock: the outcome is
/// `decode_outcome` of the first check at some reading of the clock. A token
/// made for a payload under the same key reads back as that payload.
pub fn decode_token(secret_key: &String, token: &str) -> (res: Result<Decoded, Error>)
    ensures
        exists|now: u64|
            decodes_to(res, #[trigger] decode_outcome(jwt_hs256_claims(token@, encode_utf8(secret_key@)), now)),
        forall|p: Payload| token@ == #[trigger] jwt_hs256(payload_json(p), encode_utf8(secret_key@))
            ==> jwt_hs256_claims(token@, encode_utf8(secret_key@))
                == (JwtCheck::Claims { id: Some(p.id as i64), exp: Some(p.exp) }),
        res matches Err(e) ==> is_misc(e, "decode JWT"@),
{
    let key = secret_key.as_str().as_bytes();
    let unchecked = jwt_decode_hs256(token, key, false);
    let ghost claims = jwt_hs256_claims(token@, encode_utf8(secret_key@));
    match decoded_from(unchecked) {
        Ok(Decoded::Valid(p)) => {
            let checked = jwt_decode_hs256(token, key, true);
            let ghost now = choose|now: u64|
                #[trigger] exp_checked(claims, now) is None || exp_checked(claims, now) == Some(checked);
            let res = match checked {
                JwtCheck::Claims { .. } => Ok(Decoded::Valid(p)),
                JwtCheck::Rejected => Ok(Decoded::Invalid),
                JwtCheck::Malformed => Err(misc_error("decode JWT")),
            };
            assert(decodes_to(res, decode_outcome(claims, now)));
            res
        },
        other => {
            assert(decodes_to(other, decode_outcome(claims, 0)));
            other
        },
    }
}

/// Makes tokens for users.
pub trait CanGenerateJwt {
    fn generate_jwt(&self, user_id: i32) -> Result<String, Error>;
}

/// Makes tokens with the secret key of its settings.
pub trait GenerateJwt: HaveConfig {}

impl<T: GenerateJwt> CanGenerateJwt for T {
    fn generate_jwt(&self, user_id: i32) -> (res: Result<String, Error>)
        ensures
            res is Ok,
            res matches Ok(t) ==> exists|now: i64| now < time_bound()
                && t@ == jwt_hs256(payload_json(#[trigger] payload_at(user_id, now)), encode_utf8(self.config_spec().jwt_secret_key@)),
    {
        generate_token(&self.config().jwt_secret_key, user_id)
    }
}

/// Decodes tokens.
pub trait CanDecodeJwt {
    fn decode_jwt(&self, token: &str) -> Result<Decoded, Error>;
}

/// Decodes tokens with the secret key of its settings.
pub trait DecodeJwt: HaveConfig {}

impl<T: DecodeJwt> CanDecodeJwt for T {
    fn decode_jwt(&self, token: &str) -> (res: Result<Decoded, Error>)
        ensures
            exists|now: u64| decodes_to(
                res,
                #[trigger] decode_outcome(jwt_hs256_claims(token@, encode_utf8(self.config_spec().jwt_secret_key@)), now),
            ),
            forall|p: Payload| token@ == #[trigger] jwt_hs256(payload_json(p), encode_utf8(self.config_spec().jwt_secret_key@))
                ==> jwt_hs256_claims(token@, encode_utf8(self.config_spec().jwt_secret_key@))
                    == (JwtCheck::Claims { id: Some(p.id as i64), exp: Some(p.exp) }),
            res matches Err(e) ==> is_misc(e, "decode JWT"@),
    {
        decode_token(&self.config().jwt_secret_key, token)
    }
}

impl<P> GenerateJwt for crate::hub::Hub<P> {}

impl<P> DecodeJwt for crate::hub::Hub<P> {}

} // verus!
