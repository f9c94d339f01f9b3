//! The identity resolver and the auth result assembler.
//!
//! The resolver consumes the identity store as an abstract capability with
//! two lookup operations and classifies its failures, failing closed. The
//! assembler composes locator, verifier and resolver into the three
//! supported outcomes: claims only, claims with identity, or identity only
//! for API-key mode. Each stage short-circuits on its first failure, and
//! no internal detail reaches the caller.

use vstd::prelude::*;

use crate::config::{auth_missing_msg, get_jwt_from_config, jwt_missing_msg, Config};
use crate::errors::{Error, ErrorView};
use crate::jwt::{invalid_token_msg, token_claims_of, verify, UserClaims};
use crate::locate::{
    extract_token, extract_token_from_header, header_missing_msg, header_strip_msg,
    header_token_of, locate_spec, locations_of, token_not_found_msg,
};
use crate::request::{RequestParts, RequestPartsView};

verus! {

/// How a lookup in the identity store can fail.
#[derive(Debug)]
pub enum ModelError {
    /// The store answered, but no identity matches the key.
    EntityNotFound,
    /// The store call itself failed; carries detail for the operator, not
    /// for the caller.
    DbErr(String),
    /// Any other failure of the store.
    Other(String),
}

/// The identity-store capability: two read-only lookups, one by the
/// principal identifier a token's claims carry, one by a raw API key.
/// Host code implements it over its real store; tests implement it over a
/// fixed table.
pub trait Authenticable: Sized {
    /// The data-access handle the lookups go through.
    type Store;

    fn find_by_claims_key(store: &Self::Store, key: &str) -> Result<Self, ModelError>;

    fn find_by_api_key(store: &Self::Store, key: &str) -> Result<Self, ModelError>;
}

/// Message when the store holds no matching identity.
pub open spec fn identity_not_found_msg() -> Seq<char> {
    "not found"@
}

/// Message for any store failure that is neither a miss nor a store
/// breakdown.
pub open spec fn could_not_authorize_msg() -> Seq<char> {
    "could not authorize"@
}

/// True of every error the resolver can surface.
pub open spec fn is_resolver_rejection(e: ErrorView) -> bool {
    ||| e == ErrorView::Unauthorized(identity_not_found_msg())
    ||| e == ErrorView::InternalServerError
    ||| e == ErrorView::Unauthorized(could_not_authorize_msg())
}

/// Classify a store failure, failing closed: a miss is unauthorized, a
/// store breakdown is a generic internal failure whose detail never
/// reaches the caller, and anything else is unauthorized.
pub fn classify_find_error(e: ModelError) -> (r: Error)
    ensures
        (match e {
            ModelError::EntityNotFound => r@ == ErrorView::Unauthorized(identity_not_found_msg()),
            ModelError::DbErr(_) => r@ == ErrorView::InternalServerError,
            ModelError::Other(_) => r@ == ErrorView::Unauthorized(could_not_authorize_msg()),
        }),
{
    match e {
        ModelError::EntityNotFound => Error::unauthorized("not found"),
        ModelError::DbErr(_) => Error::InternalServerError,
        ModelError::Other(_) => Error::unauthorized("could not authorize"),
    }
}

/// Look up the identity behind verified claims. What the store answers is
/// up to its implementation; every failure is classified as
/// [`classify_find_error`] does.
pub fn resolve_by_claim<T: Authenticable>(store: &T::Store, claim_key: &str) -> (r: Result<
    T,
    Error,
>)
    ensures
        r matches Err(e) ==> is_resolver_rejection(e@),
{
    match T::find_by_claims_key(store, claim_key) {
        Ok(user) => Ok(user),
        Err(e) => Err(classify_find_error(e)),
    }
}

/// Look up the identity behind a raw API key, classified as
/// [`classify_find_error`] does.
pub fn resolve_by_api_key<T: Authenticable>(store: &T::Store, raw_key: &str) -> (r: Result<
    T,
    Error,
>)
    ensures
        r matches Err(e) ==> is_resolver_rejection(e@),
{
    match T::find_by_api_key(store, raw_key) {
        Ok(user) => Ok(user),
        Err(e) => Err(classify_find_error(e)),
    }
}

// ------------------------------------------------------------------
// The three principal shapes
// ------------------------------------------------------------------
/// An authenticated principal in JWT-only mode: the verified claims, with
/// no identity lookup.
#[derive(Debug)]
pub struct JWT {
    pub claims: UserClaims,
}

/// An authenticated principal in JWT-with-identity mode: the verified
/// claims and the identity they resolve to.
#[derive(Debug)]
pub struct JWTWithUser<T: Authenticable> {
    pub claims: UserClaims,
    pub user: T,
}

/// An authenticated principal in API-key mode: the identity the key
/// resolves to.
#[derive(Debug)]
pub struct ApiToken<T: Authenticable> {
    pub user: T,
}

/// What JWT authentication owes for a configuration, a request and an
/// outcome: each configuration failure and the locator's failure surface
/// their exact message; once a token is located, a success carries exactly
/// the claims the token decodes to under the configured secret, and a
/// failure is the verifier's one rejection.
pub open spec fn jwt_auth_obligation(config: Config, p: RequestPartsView, r: Result<
    JWT,
    Error,
>) -> bool {
    match config.auth {
        None => r matches Err(e) && e@ == ErrorView::Message(auth_missing_msg()),
        Some(a) => match a.jwt {
            None => r matches Err(e) && e@ == ErrorView::Message(jwt_missing_msg()),
            Some(j) => match locate_spec(locations_of(j.location), p) {
                None => r matches Err(e) && e@ == ErrorView::Unauthorized(token_not_found_msg()),
                Some(t) => {
                    &&& (r matches Ok(out) ==> token_claims_of(
                        vstd::utf8::encode_utf8(j.secret@),
                        t,
                    ) == Some((out.claims.pid@, out.claims.exp, out.claims.iat)))
                    &&& (r matches Err(e) ==> e@ == ErrorView::Unauthorized(invalid_token_msg()))
                },
            },
        },
    }
}

/// Authenticate a request in JWT-only mode: locate the token, verify it,
/// and return the claims.
pub fn extract_jwt_from_request_parts(config: &Config, parts: &RequestParts) -> (r: Result<
    JWT,
    Error,
>)
    ensures
        jwt_auth_obligation(*config, parts@, r),
{
    let jwt_config = match get_jwt_from_config(config) {
        Ok(c) => c,
        Err(e) => return Err(e),
    };
    let token = match extract_token(jwt_config, parts) {
        Ok(t) => t,
        Err(e) => return Err(e),
    };
    match verify(jwt_config.secret.as_str().as_bytes(), token.as_str()) {
        Ok(claims) => Ok(JWT { claims }),
        Err(e) => Err(e),
    }
}

impl JWT {
    /// Authenticate a request in JWT-only mode.
    pub fn from_request_parts(config: &Config, parts: &RequestParts) -> (r: Result<JWT, Error>)
        ensures
            jwt_auth_obligation(*config, parts@, r),
    {
        extract_jwt_from_request_parts(config, parts)
    }
}

/// What JWT-with-identity authentication owes: as [`jwt_auth_obligation`]
/// up to verification; after it, a success carries exactly the verified
/// claims, and a failure is the verifier's rejection or one of the
/// resolver's classified rejections.
pub open spec fn jwt_with_user_obligation<T: Authenticable>(
    config: Config,
    p: RequestPartsView,
    r: Result<JWTWithUser<T>, Error>,
) -> bool {
    match config.auth {
        None => r matches Err(e) && e@ == ErrorView::Message(auth_missing_msg()),
        Some(a) => match a.jwt {
            None => r matches Err(e) && e@ == ErrorView::Message(jwt_missing_msg()),
            Some(j) => match locate_spec(locations_of(j.location), p) {
                None => r matches Err(e) && e@ == ErrorView::Unauthorized(token_not_found_msg()),
                Some(t) => {
                    &&& (r matches Ok(out) ==> token_claims_of(
                        vstd::utf8::encode_utf8(j.secret@),
                        t,
                    ) == Some((out.claims.pid@, out.claims.exp, out.claims.iat)))
                    &&& (r matches Err(e) ==> (e@ == ErrorView::Unauthorized(invalid_token_msg())
                        || is_resolver_rejection(e@)))
                },
            },
        },
    }
}

impl<T: Authenticable> JWTWithUser<T> {
    /// Authenticate a request in JWT-with-identity mode: locate the token,
    /// verify it, and resolve the identity behind the claims' principal
    /// identifier.
    pub fn from_request_parts(config: &Config, parts: &RequestParts, store: &T::Store) -> (r:
        Result<JWTWithUser<T>, Error>)
        ensures
            jwt_with_user_obligation::<T>(*config, parts@, r),
    {
        let jwt_config = match get_jwt_from_config(config) {
            Ok(c) => c,
            Err(e) => return Err(e),
        };
        let token = match extract_token(jwt_config, parts) {
            Ok(t) => t,
            Err(e) => return Err(e),
        };
        let claims = match verify(jwt_config.secret.as_str().as_bytes(), token.as_str()) {
            Ok(c) => c,
            Err(e) => return Err(e),
        };
        match resolve_by_claim::<T>(store, claims.pid.as_str()) {
            Ok(user) => Ok(JWTWithUser { claims, user }),
            Err(e) => Err(e),
        }
    }
}

/// What API-key authentication owes: the bearer header's failures surface
/// their exact message; once the key is read, a failure is one of the
/// resolver's classified rejections.
pub open spec fn api_token_obligation<T: Authenticable>(
    p: RequestPartsView,
    r: Result<ApiToken<T>, Error>,
) -> bool {
    match p.authorization {
        None => r matches Err(e) && e@ == ErrorView::Unauthorized(header_missing_msg()),
        Some(h) => match header_token_of(h) {
            None => r matches Err(e) && e@ == ErrorView::Unauthorized(header_strip_msg()),
            Some(_) => r matches Err(e) ==> is_resolver_rejection(e@),
        },
    }
}

impl<T: Authenticable> ApiToken<T> {
    /// Authenticate a request in API-key mode: read the key from the
    /// bearer header and resolve the identity behind it.
    pub fn from_request_parts(parts: &RequestParts, store: &T::Store) -> (r: Result<
        ApiToken<T>,
        Error,
    >)
        ensures
            api_token_obligation::<T>(parts@, r),
    {
        let api_key = match extract_token_from_header(parts) {
            Ok(k) => k,
            Err(e) => return Err(e),
        };
        match resolve_by_api_key::<T>(store, api_key.as_str()) {
            Ok(user) => Ok(ApiToken { user }),
            Err(e) => Err(e),
        }
    }
}

} // verus!
