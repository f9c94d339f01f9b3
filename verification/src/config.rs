//! The authentication configuration: where a request may carry its token,
//! the shared secret, and the token lifetime.
//!
//! The configuration is built once at process start and read concurrently
//! afterwards; nothing in this crate mutates it.

use vstd::prelude::*;

use crate::errors::{Error, ErrorView};

verus! {

/// One place a request may carry its token.
#[derive(Debug, PartialEq)]
pub enum JWTLocation {
    /// The `authorization` header, with the `"Bearer "` prefix.
    Bearer,
    /// A cookie of the given name.
    Cookie { name: String },
    /// A query parameter of the given name.
    Query { name: String },
}

/// The configured location or ordered list of locations to try.
#[derive(Debug)]
pub enum JWTLocationConfig {
    Single(JWTLocation),
    Multiple(Vec<JWTLocation>),
}

/// The JWT section of the configuration.
#[derive(Debug)]
pub struct JWTConfig {
    /// Where to look for the token; `None` means the default list.
    pub location: Option<JWTLocationConfig>,
    /// The shared signing secret.
    pub secret: String,
    /// Token lifetime in seconds, used when issuing tokens.
    pub expiration: u64,
}

/// The `auth` section of the configuration.
pub struct AuthConfig {
    pub jwt: Option<JWTConfig>,
}

/// The part of the process-wide configuration the pipeline reads.
pub struct Config {
    pub auth: Option<AuthConfig>,
}

/// Message when the `auth` section is absent.
pub open spec fn auth_missing_msg() -> Seq<char> {
    "auth not configured"@
}

/// Message when the `auth.jwt` section is absent.
pub open spec fn jwt_missing_msg() -> Seq<char> {
    "JWT token not configured"@
}

/// Fetch the JWT section of the configuration.
///
/// Fails exactly when the `auth` section or its `jwt` subsection is absent,
/// naming the missing section.
pub fn get_jwt_from_config(config: &Config) -> (r: Result<&JWTConfig, Error>)
    ensures
        (match config.auth {
            None => r matches Err(e) && e@ == ErrorView::Message(auth_missing_msg()),
            Some(a) => match a.jwt {
                None => r matches Err(e) && e@ == ErrorView::Message(jwt_missing_msg()),
                Some(j) => r matches Ok(c) && *c == j,
            },
        }),
{
    match &config.auth {
        None => Err(Error::string("auth not configured")),
        Some(auth) => match &auth.jwt {
            None => Err(Error::string("JWT token not configured")),
            Some(jwt) => Ok(jwt),
        },
    }
}

} // verus!
