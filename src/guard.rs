//! Admission of a connection: the bearer credential that a request presents.
use vstd::prelude::*;

use std::collections::BTreeMap;

use crate::config::AppConfig;
use crate::ids::{parse_uuid, uuid_value};
use crate::protocol::{text_field, text_member};

verus! {

/// Why a credential was refused.
#[derive(Debug, Clone, Copy, PartialEq, Eq, Structural)]
pub enum GuardError {
    /// No credential was presented.
    Missing,
    /// The credential is malformed, badly signed, or names no user.
    Invalid,
    /// The credential has expired.
    Expired,
}

/// Why a signed token was refused.
#[derive(Debug, Clone, Copy, PartialEq, Eq, Structural)]
pub enum TokenFault {
    /// Its expiry lies in the past.
    Expired,
    /// Anything else: bad format, bad signature, a required claim missing.
    Rejected,
}

/// The user a request was authenticated as.
#[derive(Debug, Clone, Copy, PartialEq, Eq, Structural)]
pub struct AuthenticatedUser {
    pub user_id: u128,
}

/// The characters that Unicode gives the White_Space property.
pub open spec fn is_white_space(c: char) -> bool {
    let v = c as u32;
    (0x9 <= v <= 0xd) || v == 0x20 || v == 0x85 || v == 0xa0 || v == 0x1680 || (0x2000 <= v
        <= 0x200a) || v == 0x2028 || v == 0x2029 || v == 0x202f || v == 0x205f || v == 0x3000
}

/// The maximal runs of characters of `s` that are not white space, in order.
pub open spec fn words(s: Seq<char>) -> Seq<Seq<char>>
    decreases s.len(),
{
    if s.len() == 0 {
        Seq::empty()
    } else {
        let w = words(s.drop_last());
        let c = s.last();
        if is_white_space(c) {
            w
        } else if s.len() >= 2 && !is_white_space(s[s.len() - 2]) {
            w.update(w.len() - 1, w.last().push(c))
        } else {
            w.push(seq![c])
        }
    }
}

/// Relies on `str::split_whitespace`: the runs of characters between
/// White_Space characters, empty runs left out.
#[verifier::external_body]
fn split_words(s: &str) -> (r: Vec<String>)
    ensures
        r.deep_view() == words(s@),
{
    s.split_whitespace().map(String::from).collect()
}

/// The claims of `token` when its HS256 signature verifies under `secret`,
/// its payload is a JSON object and it carries a numeric `exp`: each claim
/// name once, in increasing order, with its value when that is a JSON string.
/// `None` for any other token. This does not depend on the clock.
pub uninterp spec fn signed_claims(token: Seq<char>, secret: Seq<char>) -> Option<
    Seq<(Seq<char>, Option<Seq<char>>)>,
>;

/// Relies on `jsonwebtoken::decode` with HS256 and the default validation.
/// It checks the signature and reads the claims before it compares the expiry
/// with the clock: a success hands out the signed claims, and a token is only
/// found expired once its signature and claims are sound. Which of success
/// and expiry comes out depends on the time.
#[verifier::external_body]
fn decode_claims(token: &str, secret: &str) -> (r: Result<Vec<(String, Option<String>)>, TokenFault>)
    ensures
        r matches Ok(c) ==> signed_claims(token@, secret@) == Some(c.deep_view()),
        r is Ok || r->Err_0 == TokenFault::Rejected || signed_claims(token@, secret@) is Some,
{
    let key = jsonwebtoken::DecodingKey::from_secret(secret.as_bytes());
    let validation = jsonwebtoken::Validation::default();
    match jsonwebtoken::decode::<BTreeMap<String, serde_json::Value>>(token, &key, &validation) {
        Ok(data) => Ok(data.claims.into_iter().map(|(name, value)| match value {
            serde_json::Value::String(s) => (name, Some(s)),
            _ => (name, None),
        }).collect()),
        Err(e) => match e.kind() {
            jsonwebtoken::errors::ErrorKind::ExpiredSignature => Err(TokenFault::Expired),
            _ => Err(TokenFault::Rejected),
        },
    }
}

/// The token of an `Authorization` header: exactly two words, the first
/// `Bearer`.
pub open spec fn bearer_of(header: Seq<char>) -> Option<Seq<char>> {
    let w = words(header);
    if w.len() == 2 && w[0] == "Bearer"@ {
        Some(w[1])
    } else {
        None
    }
}

/// The token among the words of an `Authorization` header.
pub fn bearer_token(words: &Vec<String>) -> (r: Result<String, GuardError>)
    ensures
        match r {
            Ok(t) => words@.len() == 2 && words@[0]@ == "Bearer"@ && t@ == words@[1]@,
            Err(e) => e == GuardError::Invalid && !(words@.len() == 2 && words@[0]@ == "Bearer"@),
        },
{
    if words.len() != 2 {
        return Err(GuardError::Invalid);
    }
    let bearer = String::from_str("Bearer");
    if words[0] != bearer {
        return Err(GuardError::Invalid);
    }
    Ok(words[1].clone())
}

/// The user that verified claims name: the `sub` claim must hold a UUID.
pub open spec fn claimed_user(decoded: Result<Seq<(Seq<char>, Option<Seq<char>>)>, TokenFault>) -> Result<
    u128,
    GuardError,
> {
    match decoded {
        Err(TokenFault::Expired) => Err(GuardError::Expired),
        Err(TokenFault::Rejected) => Err(GuardError::Invalid),
        Ok(claims) => match text_field(claims, "sub"@) {
            Some(sub) => match uuid_value(sub) {
                Some(id) => Ok(id),
                None => Err(GuardError::Invalid),
            },
            None => Err(GuardError::Invalid),
        },
    }
}

/// The outcome of verifying a token, with texts as sequences of characters.
pub open spec fn decoded_claims_view(decoded: Result<Vec<(String, Option<String>)>, TokenFault>) -> Result<
    Seq<(Seq<char>, Option<Seq<char>>)>,
    TokenFault,
> {
    match decoded {
        Ok(claims) => Ok(claims.deep_view()),
        Err(e) => Err(e),
    }
}

/// Decides admission from the outcome of verifying the token.
pub fn user_of_claims(decoded: Result<Vec<(String, Option<String>)>, TokenFault>) -> (r: Result<
    AuthenticatedUser,
    GuardError,
>)
    ensures
        match claimed_user(decoded_claims_view(decoded)) {
            Ok(id) => r == Ok::<AuthenticatedUser, GuardError>(AuthenticatedUser { user_id: id }),
            Err(e) => r == Err::<AuthenticatedUser, GuardError>(e),
        },
{
    match decoded {
        Err(TokenFault::Expired) => Err(GuardError::Expired),
        Err(TokenFault::Rejected) => Err(GuardError::Invalid),
        Ok(claims) => match text_member(&claims, "sub") {
            Some(sub) => match parse_uuid(sub.as_str()) {
                Some(id) => Ok(AuthenticatedUser { user_id: id }),
                None => Err(GuardError::Invalid),
            },
            None => Err(GuardError::Invalid),
        },
    }
}

/// Checks the credential of a request: no header is `Missing`; a header that
/// is not `Bearer <token>` is `Invalid`; otherwise the token's signature,
/// expiry and subject decide.
pub fn authenticate(header: Option<&str>, config: &AppConfig) -> (r: Result<
    AuthenticatedUser,
    GuardError,
>)
    ensures
        header is None ==> r == Err::<AuthenticatedUser, GuardError>(GuardError::Missing),
        header matches Some(h) && bearer_of(h@) is None ==> r == Err::<
            AuthenticatedUser,
            GuardError,
        >(GuardError::Invalid),
        header is Some ==> r != Err::<AuthenticatedUser, GuardError>(GuardError::Missing),
        r matches Ok(u) ==> header matches Some(h) && bearer_of(h@) matches Some(t)
            && signed_claims(t, config.jwt_secret@) matches Some(c) && claimed_user(Ok(c)) == Ok::<
            u128,
            GuardError,
        >(u.user_id),
{
    let h = match header {
        Some(h) => h,
        None => return Err(GuardError::Missing),
    };
    let parts = split_words(h);
    let token = match bearer_token(&parts) {
        Ok(t) => t,
        Err(e) => return Err(e),
    };
    let decoded = decode_claims(token.as_str(), config.jwt_secret.as_str());
    user_of_claims(decoded)
}

} // verus!
