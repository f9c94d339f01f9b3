use loco_auth::auth::{
    classify_find_error, ApiToken, Authenticable, ModelError, JWT, JWTWithUser,
};
use loco_auth::config::{AuthConfig, Config, JWTConfig, JWTLocation, JWTLocationConfig};
use loco_auth::errors::Error;
use loco_auth::jwt::{sign, UserClaims};
use loco_auth::request::RequestParts;

/// A store for tests: identities keyed by pid and by API key, plus a
/// switch that makes every call fail like a broken store.
struct TestStore {
    users: Vec<(String, String)>,
    broken: bool,
}

#[derive(Debug, PartialEq)]
struct TestUser {
    name: String,
}

impl Authenticable for TestUser {
    type Store = TestStore;

    fn find_by_claims_key(store: &TestStore, key: &str) -> Result<Self, ModelError> {
        if store.broken {
            return Err(ModelError::DbErr("connection refused".to_string()));
        }
        store
            .users
            .iter()
            .find(|(k, _)| k == key)
            .map(|(_, name)| TestUser { name: name.clone() })
            .ok_or(ModelError::EntityNotFound)
    }

    fn find_by_api_key(store: &TestStore, key: &str) -> Result<Self, ModelError> {
        Self::find_by_claims_key(store, key)
    }
}

fn store() -> TestStore {
    TestStore {
        users: vec![
            ("user-1".to_string(), "First User".to_string()),
            ("api-key-1".to_string(), "Key User".to_string()),
        ],
        broken: false,
    }
}

fn config_with(secret: &str, location: Option<JWTLocationConfig>) -> Config {
    Config {
        auth: Some(AuthConfig {
            jwt: Some(JWTConfig { location, secret: secret.to_string(), expiration: 604800 }),
        }),
    }
}

fn bearer_request(token: &str) -> RequestParts {
    RequestParts {
        authorization: Some(format!("Bearer {token}")),
        cookie: None,
        uri: "https://loco.rs".to_string(),
    }
}

fn fresh_token(secret: &[u8]) -> String {
    sign(secret, &UserClaims { pid: "user-1".to_string(), exp: 4102444800, iat: 0 })
}

#[test]
fn jwt_mode_returns_claims() {
    let config = config_with("secret", None);
    let parts = bearer_request(&fresh_token(b"secret"));
    let jwt = JWT::from_request_parts(&config, &parts).unwrap();
    assert_eq!(jwt.claims.pid, "user-1");
    assert_eq!(jwt.claims.exp, 4102444800);
}

#[test]
fn jwt_mode_rejects_missing_configuration() {
    let parts = bearer_request(&fresh_token(b"secret"));

    let no_auth = Config { auth: None };
    match JWT::from_request_parts(&no_auth, &parts).unwrap_err() {
        Error::Message(msg) => assert_eq!(msg, "auth not configured"),
        other => panic!("unexpected: {other:?}"),
    }

    let no_jwt = Config { auth: Some(AuthConfig { jwt: None }) };
    match JWT::from_request_parts(&no_jwt, &parts).unwrap_err() {
        Error::Message(msg) => assert_eq!(msg, "JWT token not configured"),
        other => panic!("unexpected: {other:?}"),
    }
}

#[test]
fn jwt_mode_rejects_bad_token() {
    let config = config_with("secret", None);
    let parts = bearer_request(&fresh_token(b"wrong-secret"));
    match JWT::from_request_parts(&config, &parts).unwrap_err() {
        Error::Unauthorized(msg) => assert_eq!(msg, "token is not valid"),
        other => panic!("unexpected: {other:?}"),
    }
}

#[test]
fn jwt_with_user_mode_resolves_identity() {
    let config = config_with("secret", None);
    let parts = bearer_request(&fresh_token(b"secret"));
    let out: JWTWithUser<TestUser> =
        JWTWithUser::from_request_parts(&config, &parts, &store()).unwrap();
    assert_eq!(out.claims.pid, "user-1");
    assert_eq!(out.user, TestUser { name: "First User".to_string() });
}

#[test]
fn jwt_with_user_mode_classifies_store_failures() {
    let config = config_with("secret", None);
    let token = sign(
        b"secret",
        &UserClaims { pid: "unknown".to_string(), exp: 4102444800, iat: 0 },
    );
    let parts = bearer_request(&token);

    // Lookup miss: unauthorized.
    match JWTWithUser::<TestUser>::from_request_parts(&config, &parts, &store()).unwrap_err() {
        Error::Unauthorized(msg) => assert_eq!(msg, "not found"),
        other => panic!("unexpected: {other:?}"),
    }

    // Broken store: internal failure, no detail leaked.
    let broken = TestStore { users: vec![], broken: true };
    let parts = bearer_request(&fresh_token(b"secret"));
    match JWTWithUser::<TestUser>::from_request_parts(&config, &parts, &broken).unwrap_err() {
        Error::InternalServerError => {}
        other => panic!("unexpected: {other:?}"),
    }
}

#[test]
fn api_token_mode_resolves_by_raw_key() {
    let parts = bearer_request("api-key-1");
    let out: ApiToken<TestUser> = ApiToken::from_request_parts(&parts, &store()).unwrap();
    assert_eq!(out.user, TestUser { name: "Key User".to_string() });

    let missing = bearer_request("api-key-2");
    match ApiToken::<TestUser>::from_request_parts(&missing, &store()).unwrap_err() {
        Error::Unauthorized(msg) => assert_eq!(msg, "not found"),
        other => panic!("unexpected: {other:?}"),
    }
}

#[test]
fn classification_is_exact() {
    match classify_find_error(ModelError::EntityNotFound) {
        Error::Unauthorized(msg) => assert_eq!(msg, "not found"),
        other => panic!("unexpected: {other:?}"),
    }
    match classify_find_error(ModelError::DbErr("detail".to_string())) {
        Error::InternalServerError => {}
        other => panic!("unexpected: {other:?}"),
    }
    match classify_find_error(ModelError::Other("detail".to_string())) {
        Error::Unauthorized(msg) => assert_eq!(msg, "could not authorize"),
        other => panic!("unexpected: {other:?}"),
    }
}

#[test]
fn jwt_mode_honours_configured_cookie_location() {
    let config = config_with(
        "secret",
        Some(JWTLocationConfig::Single(JWTLocation::Cookie {
            name: "loco_cookie_key".to_string(),
        })),
    );
    let token = fresh_token(b"secret");
    let parts = RequestParts {
        authorization: None,
        cookie: Some(format!("loco_cookie_key={token}")),
        uri: "https://loco.rs".to_string(),
    };
    let jwt = JWT::from_request_parts(&config, &parts).unwrap();
    assert_eq!(jwt.claims.pid, "user-1");
}
