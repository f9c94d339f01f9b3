//! The token verifier: signing and verifying claims payloads with a shared
//! secret.
//!
//! Signature checking is delegated to the jsonwebtoken library (HS256).
//! Its results are named by uninterpreted functions — `signed_token_of`
//! for the token a payload signs to, `token_claims_of` for what a token
//! decodes to — and the expiry rule is checked here, so that acceptance of
//! a token is verified for every reading of the clock.

use vstd::prelude::*;

use crate::errors::{Error, ErrorView};

verus! {

/// The claims payload: the principal identifier, the expiration
/// timestamp, and the issued-at timestamp, in seconds since the epoch.
#[derive(Debug, PartialEq)]
pub struct UserClaims {
    pub pid: String,
    pub exp: u64,
    pub iat: u64,
}

/// The mathematical model of [`UserClaims`].
pub struct UserClaimsView {
    pub pid: Seq<char>,
    pub exp: u64,
    pub iat: u64,
}

impl View for UserClaims {
    type V = UserClaimsView;

    open spec fn view(&self) -> UserClaimsView {
        UserClaimsView { pid: self.pid@, exp: self.exp, iat: self.iat }
    }
}

/// The token text that signing a claims payload with a secret produces.
/// The header, the claims object and the HMAC signature are each
/// deterministic, so the token is a function of the arguments alone.
pub uninterp spec fn signed_token_of(secret: Seq<u8>, pid: Seq<char>, exp: u64, iat: u64) -> Seq<
    char,
>;

/// The claims `(pid, exp, iat)` that a token decodes to under a secret, or
/// nothing when the token is malformed, carries the wrong signature, or
/// lacks one of the claims.
pub uninterp spec fn token_claims_of(secret: Seq<u8>, token: Seq<char>) -> Option<
    (Seq<char>, u64, u64),
>;

/// Relies on `jsonwebtoken::encode` with the HS256 algorithm: the default
/// header, the claims object built here, and the HMAC signature are each
/// deterministic functions of the arguments, so the token is named by
/// `signed_token_of`. For an HMAC secret of any length the signing path in
/// the library's source cannot fail, so the result is always present. The
/// last clause is the library's round trip: `jsonwebtoken::decode` under
/// the same secret verifies the same HMAC over the same text and hands the
/// claims object back, so the token it built decodes to what it was built
/// from.
#[verifier::external_body]
fn encode_hs256(secret: &[u8], pid: &str, exp: u64, iat: u64) -> (r: Option<String>)
    ensures
        r is Some,
        r matches Some(t) ==> t@ == signed_token_of(secret@, pid@, exp, iat),
        r matches Some(t) ==> token_claims_of(secret@, t@) == Some((pid@, exp, iat)),
{
    let mut claims = serde_json::Map::new();
    claims.insert("exp".to_string(), serde_json::Value::from(exp));
    claims.insert("iat".to_string(), serde_json::Value::from(iat));
    claims.insert("pid".to_string(), serde_json::Value::String(pid.to_string()));
    let key = jsonwebtoken::EncodingKey::from_secret(secret);
    let claims = serde_json::Value::Object(claims);
    jsonwebtoken::encode(&jsonwebtoken::Header::default(), &claims, &key).ok()
}

/// Relies on `jsonwebtoken::decode`: with a fixed validation — HS256 only,
/// the time-dependent checks disabled — the outcome is a function of the
/// secret and the token text alone, named by `token_claims_of`; and a
/// token that `jsonwebtoken::encode` built from a claims object with the
/// same secret decodes back to the claims it was built from. Field access
/// on the decoded `serde_json` value converts the claims to plain values.
#[verifier::external_body]
fn decode_hs256(secret: &[u8], token: &str) -> (r: Option<(String, u64, u64)>)
    ensures
        r matches Some(c) ==> token_claims_of(secret@, token@) == Some((c.0@, c.1, c.2)),
        r is None ==> token_claims_of(secret@, token@) is None,
{
    let key = jsonwebtoken::DecodingKey::from_secret(secret);
    let mut validation = jsonwebtoken::Validation::new(jsonwebtoken::Algorithm::HS256);
    validation.validate_exp = false;
    let data = match jsonwebtoken::decode::<serde_json::Value>(token, &key, &validation) {
        Ok(d) => d,
        Err(_) => return None,
    };
    let pid = data.claims.get("pid")?.as_str()?.to_string();
    let exp = data.claims.get("exp")?.as_u64()?;
    let iat = data.claims.get("iat")?.as_u64()?;
    Some((pid, exp, iat))
}

/// Relies on `std::time::SystemTime::now`: the seconds since the Unix
/// epoch, or zero when the clock reads earlier than the epoch. Nothing is
/// assumed of the value; callers must hold for every reading.
#[verifier::external_body]
fn current_timestamp() -> u64 {
    match std::time::SystemTime::now().duration_since(std::time::UNIX_EPOCH) {
        Ok(d) => d.as_secs(),
        Err(_) => 0,
    }
}

/// Sign a claims payload with the shared secret.
///
/// The second clause is one half of the round-trip law: the token decodes
/// back to exactly the claims it was built from, so by the contract of
/// [`verify_at`] it verifies back to them as long as its expiry lies after
/// the clock reading.
pub fn sign(secret: &[u8], claims: &UserClaims) -> (r: String)
    ensures
        r@ == signed_token_of(secret@, claims.pid@, claims.exp, claims.iat),
        token_claims_of(secret@, r@) == Some((claims.pid@, claims.exp, claims.iat)),
{
    match encode_hs256(secret, claims.pid.as_str(), claims.exp, claims.iat) {
        Some(t) => t,
        None => vstd::pervasive::unreached(),
    }
}

/// The one message a failed verification surfaces; the reason is never
/// detailed to the caller.
pub open spec fn invalid_token_msg() -> Seq<char> {
    "token is not valid"@
}

/// Verify a token against the shared secret as of time `now`.
///
/// Succeeds exactly on tokens that decode under the secret and have not
/// expired; any failure — bad signature, malformed structure, expiry —
/// collapses to one unauthorized rejection. Together with the contract of
/// [`sign`] this is the round-trip law: a token signed with the same
/// secret verifies back to the claims it was built from, as long as its
/// expiry lies after `now`.
pub fn verify_at(secret: &[u8], token: &str, now: u64) -> (r: Result<UserClaims, Error>)
    ensures
        (match token_claims_of(secret@, token@) {
            Some(c) => if c.1 > now {
                r matches Ok(u) && u.pid@ == c.0 && u.exp == c.1 && u.iat == c.2
            } else {
                r matches Err(e) && e@ == ErrorView::Unauthorized(invalid_token_msg())
            },
            None => r matches Err(e) && e@ == ErrorView::Unauthorized(invalid_token_msg()),
        }),
{
    match decode_hs256(secret, token) {
        Some((pid, exp, iat)) => {
            if exp > now {
                Ok(UserClaims { pid, exp, iat })
            } else {
                Err(Error::unauthorized("token is not valid"))
            }
        },
        None => Err(Error::unauthorized("token is not valid")),
    }
}

/// Verify a token against the shared secret as of the wall clock.
///
/// Whatever the clock reads, a success carries exactly the claims the
/// token decodes to, and a failure is the one unauthorized rejection.
pub fn verify(secret: &[u8], token: &str) -> (r: Result<UserClaims, Error>)
    ensures
        r matches Ok(u) ==> token_claims_of(secret@, token@) == Some((u.pid@, u.exp, u.iat)),
        r matches Err(e) ==> e@ == ErrorView::Unauthorized(invalid_token_msg()),
{
    let now = current_timestamp();
    verify_at(secret, token, now)
}

} // verus!
