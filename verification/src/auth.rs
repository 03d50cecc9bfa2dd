//! Telling who a request comes from: the `Authorization` header must hold
//! `Token <jwt>`, and the token must be valid.
use vstd::prelude::*;
use vstd::string::*;
use crate::error::{Error, ErrorKind, ErrorKindAuth};
use vstd::utf8::encode_utf8;
use crate::config::HaveConfig;
use crate::jwt::{decode_outcome, decodes_to, is_misc, jwt_hs256_claims, CanDecodeJwt, DecodeJwt, Decoded, Payload};
use crate::mdl::User;

verus! {

/// What an `Authorization` header starts with.
pub const TOKEN_PREFIX: &'static str = "Token ";

/// Whether `prefix` is a prefix of `s`.
pub open spec fn has_prefix(s: Seq<char>, prefix: Seq<char>) -> bool {
    prefix.len() <= s.len() && s.subrange(0, prefix.len() as int) == prefix
}

/// `s` without `prefix` when it starts with it.
pub fn strip_prefix<'a>(s: &'a str, prefix: &str) -> (r: Option<&'a str>)
    ensures
        r is Some <==> has_prefix(s@, prefix@),
        r matches Some(t) ==> t@ == s@.subrange(prefix@.len() as int, s@.len() as int),
{
    let n = s.unicode_len();
    let m = prefix.unicode_len();
    if m > n {
        return None;
    }
    let mut i: usize = 0;
    while i < m
        invariant
            n == s@.len(),
            m == prefix@.len(),
            m <= n,
            i <= m,
            forall|j: int| 0 <= j < i ==> s@[j] == prefix@[j],
        decreases m - i,
    {
        if s.get_char(i) != prefix.get_char(i) {
            proof {
                assert(s@.subrange(0, m as int)[i as int] != prefix@[i as int]);
            }
            return None;
        }
        i = i + 1;
    }
    proof {
        assert(s@.subrange(0, m as int) =~= prefix@);
    }
    Some(s.substring_char(m, n))
}

/// A header made of `Token ` and a token gives that token back.
pub proof fn token_header_round_trip(token: Seq<char>)
    ensures
        has_prefix(TOKEN_PREFIX@ + token, TOKEN_PREFIX@),
        (TOKEN_PREFIX@ + token).subrange(TOKEN_PREFIX@.len() as int, (TOKEN_PREFIX@ + token).len() as int) == token,
{
    assert((TOKEN_PREFIX@ + token).subrange(0, TOKEN_PREFIX@.len() as int) =~= TOKEN_PREFIX@);
    assert((TOKEN_PREFIX@ + token).subrange(TOKEN_PREFIX@.len() as int, (TOKEN_PREFIX@ + token).len() as int) =~= token);
}

/// Whether the error is the authentication failure of this kind.
pub open spec fn is_auth(e: Error, kind: ErrorKindAuth) -> bool {
    e.kind == ErrorKind::Auth(kind)
}

/// The token of an `Authorization` header: no header is `NoAuthToken`, a
/// header that does not start with `Token ` is `InvalidToken`, and otherwise
/// the token is what follows that prefix.
pub fn token_from_header(header: Option<&str>) -> (res: Result<String, Error>)
    ensures
        header is None ==> (res matches Err(e) && is_auth(e, ErrorKindAuth::NoAuthToken)),
        header matches Some(h) ==> (if has_prefix(h@, TOKEN_PREFIX@) {
            (res matches Ok(t) && t@ == h@.subrange(TOKEN_PREFIX@.len() as int, h@.len() as int))
        } else {
            (res matches Err(e) && is_auth(e, ErrorKindAuth::InvalidToken))
        }),
{
    match header {
        None => Err(Error::from(ErrorKindAuth::NoAuthToken)),
        Some(h) => match strip_prefix(h, TOKEN_PREFIX) {
            Some(t) => Ok(t.to_owned()),
            None => Err(Error::from(ErrorKindAuth::InvalidToken)),
        },
    }
}

/// The token of a header that starts with `Token `: what follows the prefix.
pub open spec fn header_token(h: Seq<char>) -> Seq<char> {
    h.subrange(TOKEN_PREFIX@.len() as int, h.len() as int)
}

/// Whether `res` is what authenticating with `token` gives when decoding it
/// comes to `outcome`: its payload and the token for a valid token,
/// `InvalidToken` for a rejected or expired one, and the "decode JWT" error
/// when it cannot be decoded.
pub open spec fn authenticates_to(res: Result<(Payload, String), Error>, token: Seq<char>, outcome: Option<Decoded>) -> bool {
    match outcome {
        Some(Decoded::Valid(p)) => res matches Ok((q, t)) && q == p && t@ == token,
        Some(Decoded::Invalid) => res matches Err(e) && is_auth(e, ErrorKindAuth::InvalidToken),
        None => res matches Err(e) && is_misc(e, "decode JWT"@),
    }
}

/// The claims of the token in an `Authorization` header, with the token:
/// no header is `NoAuthToken`, a header that does not start with `Token ` is
/// `InvalidToken`, and otherwise the text after the prefix is decoded under
/// the key of `decoder`'s settings, a rejected or expired token being
/// `InvalidToken`.
pub fn authenticate_header<D: DecodeJwt>(decoder: &D, header: Option<&str>) -> (res: Result<(Payload, String), Error>)
    ensures
        header is None ==> (res matches Err(e) && is_auth(e, ErrorKindAuth::NoAuthToken)),
        header matches Some(h) && !has_prefix(h@, TOKEN_PREFIX@)
            ==> (res matches Err(e) && is_auth(e, ErrorKindAuth::InvalidToken)),
        header matches Some(h) ==> (has_prefix(h@, TOKEN_PREFIX@) ==> exists|now: u64| authenticates_to(
            res,
            header_token(h@),
            #[trigger] decode_outcome(jwt_hs256_claims(header_token(h@), encode_utf8(decoder.config_spec().jwt_secret_key@)), now),
        )),
{
    let token = match token_from_header(header) {
        Ok(t) => t,
        Err(e) => return Err(e),
    };
    let res = decoder.decode_jwt(token.as_str());
    let ghost claims = jwt_hs256_claims(token@, encode_utf8(decoder.config_spec().jwt_secret_key@));
    let ghost now = choose|now: u64| decodes_to(res, #[trigger] decode_outcome(claims, now));
    let answer = match res {
        Ok(Decoded::Valid(payload)) => Ok((payload, token)),
        Ok(Decoded::Invalid) => Err(Error::from(ErrorKindAuth::InvalidToken)),
        Err(e) => Err(e),
    };
    assert(authenticates_to(answer, token@, decode_outcome(claims, now)));
    answer
}

/// An authenticated request: who sent it, and with which token.
#[derive(Debug)]
pub struct Auth {
    pub user: User,
    pub token: String,
}

} // verus!
