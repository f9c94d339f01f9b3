use loco_auth::config::{JWTConfig, JWTLocation, JWTLocationConfig};
use loco_auth::errors::Error;
use loco_auth::locate::{
    extract_token, extract_token_from_cookie, extract_token_from_header, extract_token_from_query,
    get_jwt_locations,
};
use loco_auth::request::RequestParts;

fn request_with_everything(uri: &str) -> RequestParts {
    RequestParts {
        authorization: Some("Bearer  bearer_token_value".to_string()),
        cookie: Some("loco_cookie_key=cookie_token_value".to_string()),
        uri: uri.to_string(),
    }
}

fn empty_request(uri: &str) -> RequestParts {
    RequestParts { authorization: None, cookie: None, uri: uri.to_string() }
}

fn jwt_config(location: Option<JWTLocationConfig>) -> JWTConfig {
    JWTConfig { location, secret: String::new(), expiration: 1 }
}

#[test]
fn extract_from_default() {
    let config = jwt_config(None);
    let parts = request_with_everything("https://loco.rs");
    let token = extract_token(&config, &parts).unwrap();
    assert_eq!(token, " bearer_token_value");
    assert!(token.contains("bearer_token_value"));
}

#[test]
fn extract_from_bearer() {
    let config = jwt_config(Some(JWTLocationConfig::Single(JWTLocation::Bearer)));
    let parts = request_with_everything("loco.rs");
    assert_eq!(extract_token(&config, &parts).unwrap(), " bearer_token_value");
}

#[test]
fn extract_from_cookie() {
    let config = jwt_config(Some(JWTLocationConfig::Single(JWTLocation::Cookie {
        name: "loco_cookie_key".to_string(),
    })));
    let parts = request_with_everything("https://loco.rs");
    assert_eq!(extract_token(&config, &parts).unwrap(), "cookie_token_value");
}

#[test]
fn extract_from_query() {
    let config = jwt_config(Some(JWTLocationConfig::Single(JWTLocation::Query {
        name: "query_token".to_string(),
    })));
    let parts = request_with_everything("https://loco.rs?query_token=query_token_value&test=loco");
    assert_eq!(extract_token(&config, &parts).unwrap(), "query_token_value");
}

#[test]
fn extract_from_multiple_locations() {
    let config = jwt_config(Some(JWTLocationConfig::Multiple(vec![
        JWTLocation::Cookie { name: "nonexistent".to_string() },
        JWTLocation::Query { name: "query_token".to_string() },
    ])));
    let parts = request_with_everything("https://loco.rs?query_token=query_token_value&test=loco");
    assert_eq!(extract_token(&config, &parts).unwrap(), "query_token_value");
}

#[test]
fn earlier_location_wins_over_later() {
    // Both the cookie and the query carry a (different) token; the earlier
    // configured location decides.
    let config = jwt_config(Some(JWTLocationConfig::Multiple(vec![
        JWTLocation::Cookie { name: "loco_cookie_key".to_string() },
        JWTLocation::Query { name: "query_token".to_string() },
    ])));
    let parts = request_with_everything("https://loco.rs?query_token=query_token_value");
    assert_eq!(extract_token(&config, &parts).unwrap(), "cookie_token_value");
}

#[test]
fn missing_token_names_configuration_key() {
    let config = jwt_config(Some(JWTLocationConfig::Multiple(vec![
        JWTLocation::Cookie { name: "nonexistent".to_string() },
        JWTLocation::Query { name: "query_token".to_string() },
    ])));
    let parts = empty_request("https://loco.rs");
    let err = extract_token(&config, &parts).unwrap_err();
    match err {
        Error::Unauthorized(msg) => {
            assert!(msg.contains("auth.jwt.location configuration"));
        }
        other => panic!("unexpected error: {other:?}"),
    }
}

#[test]
fn header_requires_exact_bearer_prefix() {
    let mut parts = empty_request("https://loco.rs");

    parts.authorization = Some("Bearer token".to_string());
    assert_eq!(extract_token_from_header(&parts).unwrap(), "token");

    // No trailing space: rejected.
    parts.authorization = Some("Bearer".to_string());
    assert!(extract_token_from_header(&parts).is_err());

    // Wrong case: rejected.
    parts.authorization = Some("bearer token".to_string());
    assert!(extract_token_from_header(&parts).is_err());

    // Absent header: rejected with a message naming the header.
    parts.authorization = None;
    match extract_token_from_header(&parts).unwrap_err() {
        Error::Unauthorized(msg) => assert!(msg.contains("authorization")),
        other => panic!("unexpected error: {other:?}"),
    }
}

#[test]
fn default_location_list_is_bearer() {
    let locations = get_jwt_locations(None);
    assert_eq!(locations, vec![&JWTLocation::Bearer]);
}

#[test]
fn cookie_value_may_contain_equals_sign() {
    let parts = RequestParts {
        authorization: None,
        cookie: Some("loco_cookie_key=a=b".to_string()),
        uri: "https://loco.rs".to_string(),
    };
    assert_eq!(
        extract_token_from_cookie("loco_cookie_key", &parts).unwrap(),
        "a=b"
    );
}

#[test]
fn cookie_header_with_several_cookies() {
    let parts = RequestParts {
        authorization: None,
        cookie: Some("first=one; loco_cookie_key=cookie_token_value; other=two".to_string()),
        uri: "https://loco.rs".to_string(),
    };
    assert_eq!(
        extract_token_from_cookie("loco_cookie_key", &parts).unwrap(),
        "cookie_token_value"
    );
    assert!(extract_token_from_cookie("missing", &parts).is_err());
}

#[test]
fn query_parameter_missing_is_named() {
    let parts = empty_request("https://loco.rs?other=1");
    match extract_token_from_query("query_token", &parts).unwrap_err() {
        Error::Unauthorized(msg) => assert!(msg.contains("`query_token` query parameter not found")),
        other => panic!("unexpected error: {other:?}"),
    }
}
