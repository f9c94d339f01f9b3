//! Request-authentication pipeline: multi-location token resolution,
//! token verification, and claims-to-identity resolution.

pub mod auth;
pub mod config;
pub mod errors;
pub mod jwt;
pub mod locate;
pub mod request;
