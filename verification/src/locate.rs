//! The credential locator: given the configured locations and a request's
//! header and URI data, produce the raw token by trying each location in
//! order and returning the first success.
//!
//! Cookie-header and query-string parsing are delegated to the same
//! collaborators the surrounding framework uses; their results are named
//! by uninterpreted functions, and everything around them — the order of
//! the attempts, the `"Bearer "` prefix rule, and the lookup of a named
//! pair — is verified here.

use vstd::prelude::*;

use crate::config::{JWTConfig, JWTLocation, JWTLocationConfig};
use crate::errors::{Error, ErrorView};
use crate::request::{RequestParts, RequestPartsView};

verus! {

// ------------------------------------------------------------------
// Bearer header
// ------------------------------------------------------------------
/// The exact prefix a bearer `authorization` header must carry,
/// trailing space included.
pub open spec fn bearer_prefix() -> Seq<char> {
    "Bearer "@
}

/// What the bearer location yields on a header value: the text after the
/// `"Bearer "` prefix, or nothing when the prefix does not match exactly.
pub open spec fn header_token_of(h: Seq<char>) -> Option<Seq<char>> {
    if h.len() >= 7 && h.subrange(0, 7) == bearer_prefix() {
        Some(h.subrange(7, h.len() as int))
    } else {
        None
    }
}

/// Strip the `"Bearer "` prefix from a header value.
fn strip_bearer(h: &str) -> (r: Option<String>)
    ensures
        (match header_token_of(h@) {
            Some(t) => r matches Some(s) && s@ == t,
            None => r is None,
        }),
{
    proof {
        reveal_strlit("Bearer ");
    }
    let prefix = "Bearer ";
    let n = h.unicode_len();
    if n < 7 {
        return None;
    }
    let mut i: usize = 0;
    while i < 7
        invariant
            i <= 7,
            7 <= n,
            n == h@.len(),
            prefix@ == bearer_prefix(),
            prefix@.len() == 7,
            forall|j: int| 0 <= j < i ==> h@[j] == bearer_prefix()[j],
        decreases 7 - i,
    {
        if h.get_char(i) != prefix.get_char(i) {
            proof {
                assert(h@.subrange(0, 7)[i as int] != bearer_prefix()[i as int]);
            }
            return None;
        }
        i += 1;
    }
    proof {
        assert(h@.subrange(0, 7) =~= bearer_prefix());
    }
    Some(String::from_str(h.substring_char(7, n)))
}

/// Message when the request carries no `authorization` header.
pub open spec fn header_missing_msg() -> Seq<char> {
    "header authorization token not found"@
}

/// Message when the header value does not start with `"Bearer "`.
pub open spec fn header_strip_msg() -> Seq<char> {
    "error strip authorization value"@
}

/// What header extraction owes: the token after the prefix, or the exact
/// error for an absent header and for a prefix mismatch.
pub open spec fn header_extraction_obligation(p: RequestPartsView, r: Result<String, Error>) -> bool {
    match p.authorization {
        None => r matches Err(e) && e@ == ErrorView::Unauthorized(header_missing_msg()),
        Some(h) => match header_token_of(h) {
            Some(t) => r matches Ok(s) && s@ == t,
            None => r matches Err(e) && e@ == ErrorView::Unauthorized(header_strip_msg()),
        },
    }
}

/// Extract a token from the `authorization` header.
///
/// The prefix must match `"Bearer "` exactly, trailing space included: a
/// header reading just `"Bearer"` is rejected.
pub fn extract_token_from_header(parts: &RequestParts) -> (r: Result<String, Error>)
    ensures
        header_extraction_obligation(parts@, r),
{
    match &parts.authorization {
        None => Err(Error::unauthorized("header authorization token not found")),
        Some(h) => match strip_bearer(h.as_str()) {
            Some(t) => Ok(t),
            None => Err(Error::unauthorized("error strip authorization value")),
        },
    }
}

// ------------------------------------------------------------------
// Name/value pair lookup, shared by the cookie and query locations
// ------------------------------------------------------------------
/// View of an executable pair list as a sequence of character sequences.
pub open spec fn pairs_view(v: Seq<(String, String)>) -> Seq<(Seq<char>, Seq<char>)> {
    v.map_values(|p: (String, String)| (p.0@, p.1@))
}

/// The value of the last pair carrying `name`, if any: a later pair of the
/// same name shadows an earlier one, as a cookie jar's insertion does.
pub open spec fn lookup_last(pairs: Seq<(Seq<char>, Seq<char>)>, name: Seq<char>) -> Option<
    Seq<char>,
>
    decreases pairs.len(),
{
    if pairs.len() == 0 {
        None
    } else if pairs.last().0 == name {
        Some(pairs.last().1)
    } else {
        lookup_last(pairs.drop_last(), name)
    }
}

/// Find the value of the last pair named `name`.
fn lookup_pair_value(pairs: &Vec<(String, String)>, name: &str) -> (r: Option<String>)
    ensures
        (match lookup_last(pairs_view(pairs@), name@) {
            Some(t) => r matches Some(s) && s@ == t,
            None => r is None,
        }),
{
    let name_s = String::from_str(name);
    let mut found: Option<String> = None;
    let mut i: usize = 0;
    while i < pairs.len()
        invariant
            i <= pairs@.len(),
            name_s@ == name@,
            (match lookup_last(pairs_view(pairs@.take(i as int)), name@) {
                Some(t) => found matches Some(s) && s@ == t,
                None => found is None,
            }),
        decreases pairs@.len() - i,
    {
        let p = &pairs[i];
        proof {
            assert(pairs@.take(i + 1) =~= pairs@.take(i as int).push(pairs@[i as int]));
            assert(pairs_view(pairs@.take(i + 1)) =~= pairs_view(pairs@.take(i as int)).push(
                (pairs@[i as int].0@, pairs@[i as int].1@),
            ));
            assert(pairs_view(pairs@.take(i + 1)).drop_last() =~= pairs_view(
                pairs@.take(i as int),
            ));
        }
        if p.0 == name_s {
            found = Some(p.1.clone());
        }
        i += 1;
    }
    proof {
        assert(pairs@.take(pairs@.len() as int) =~= pairs@);
    }
    found
}

// ------------------------------------------------------------------
// Cookie location
// ------------------------------------------------------------------
/// The name/value pairs a `Cookie` header parses to. The parse is done by
/// the cookie library; only this name for its result is assumed.
pub uninterp spec fn cookie_pairs_of(header: Seq<char>) -> Seq<(Seq<char>, Seq<char>)>;

/// What the cookie location yields: the value of the named cookie in the
/// request's `Cookie` header, if both exist.
pub open spec fn cookie_token_of(p: RequestPartsView, name: Seq<char>) -> Option<Seq<char>> {
    match p.cookie {
        None => None,
        Some(h) => lookup_last(cookie_pairs_of(h), name),
    }
}

/// Relies on `Cookie::split_parse_encoded` from the cookie crate
/// (re-exported by axum_extra): it splits a `Cookie` header on `;`, parses
/// each `name=value` segment with percent-decoding, and skips malformed
/// segments, as axum_extra's `CookieJar::from_headers` does. The pair list
/// is a function of the header text alone.
#[verifier::external_body]
fn parse_cookie_pairs(header: &str) -> (r: Vec<(String, String)>)
    ensures
        pairs_view(r@) == cookie_pairs_of(header@),
{
    let mut out: Vec<(String, String)> = Vec::new();
    for cookie in axum_extra::extract::cookie::Cookie::split_parse_encoded(header) {
        match cookie {
            Ok(c) => out.push((c.name().to_string(), c.value().to_string())),
            Err(_) => {},
        }
    }
    out
}

/// Message when the named cookie is absent.
pub open spec fn cookie_missing_msg() -> Seq<char> {
    "token is not found"@
}

/// What cookie extraction owes: the named cookie's value, or the one
/// error when the header or the cookie is absent.
pub open spec fn cookie_extraction_obligation(
    p: RequestPartsView,
    name: Seq<char>,
    r: Result<String, Error>,
) -> bool {
    match cookie_token_of(p, name) {
        Some(t) => r matches Ok(s) && s@ == t,
        None => r matches Err(e) && e@ == ErrorView::Unauthorized(cookie_missing_msg()),
    }
}

/// Extract a token from the named cookie.
pub fn extract_token_from_cookie(name: &str, parts: &RequestParts) -> (r: Result<String, Error>)
    ensures
        cookie_extraction_obligation(parts@, name@, r),
{
    match &parts.cookie {
        None => Err(Error::unauthorized("token is not found")),
        Some(h) => {
            let pairs = parse_cookie_pairs(h.as_str());
            match lookup_pair_value(&pairs, name) {
                Some(v) => Ok(v),
                None => Err(Error::unauthorized("token is not found")),
            }
        },
    }
}

// ------------------------------------------------------------------
// Query location
// ------------------------------------------------------------------
/// The key/value pairs the query string of a URI parses to, in order, or
/// nothing when the URI or its query string does not parse. The parse is
/// done by axum; only this name for its result is assumed.
pub uninterp spec fn query_pairs_of(uri: Seq<char>) -> Option<Seq<(Seq<char>, Seq<char>)>>;

/// What the query location yields: the value of the named parameter of the
/// request URI's query string, if the query parses and carries it.
pub open spec fn query_token_of(p: RequestPartsView, name: Seq<char>) -> Option<Seq<char>> {
    match query_pairs_of(p.uri) {
        None => None,
        Some(pairs) => lookup_last(pairs, name),
    }
}

/// Relies on `axum::extract::Query::try_from_uri` (serde_urlencoded
/// underneath) to parse the query string of a URI into its key/value pairs
/// in order, and on `http::Uri`'s `FromStr` impl to read the URI text.
/// Both are functions of the URI text alone; `None` stands for a URI or
/// query string that does not parse.
#[verifier::external_body]
fn parse_query_pairs(uri: &str) -> (r: Option<Vec<(String, String)>>)
    ensures
        (match query_pairs_of(uri@) {
            Some(q) => r matches Some(v) && pairs_view(v@) == q,
            None => r is None,
        }),
{
    let parsed: Result<axum::http::Uri, _> = uri.parse();
    match parsed {
        Ok(u) => match axum::extract::Query::<Vec<(String, String)>>::try_from_uri(&u) {
            Ok(q) => Some(q.0),
            Err(_) => None,
        },
        Err(_) => None,
    }
}

/// Message when the URI or its query string does not parse.
pub open spec fn query_invalid_msg() -> Seq<char> {
    "invalid query string"@
}

/// Message when the named query parameter is absent.
pub open spec fn query_missing_msg(name: Seq<char>) -> Seq<char> {
    "`"@ + name + "` query parameter not found"@
}

/// What query extraction owes: the named parameter's value, or the exact
/// error for an unparsable query and for an absent parameter.
pub open spec fn query_extraction_obligation(
    p: RequestPartsView,
    name: Seq<char>,
    r: Result<String, Error>,
) -> bool {
    match query_pairs_of(p.uri) {
        None => r matches Err(e) && e@ == ErrorView::Unauthorized(query_invalid_msg()),
        Some(pairs) => match lookup_last(pairs, name) {
            Some(t) => r matches Ok(s) && s@ == t,
            None => r matches Err(e) && e@ == ErrorView::Unauthorized(query_missing_msg(name)),
        },
    }
}

/// Extract a token from the named query parameter.
pub fn extract_token_from_query(name: &str, parts: &RequestParts) -> (r: Result<String, Error>)
    ensures
        query_extraction_obligation(parts@, name@, r),
{
    match parse_query_pairs(parts.uri.as_str()) {
        None => Err(Error::unauthorized("invalid query string")),
        Some(pairs) => match lookup_pair_value(&pairs, name) {
            Some(v) => Ok(v),
            None => {
                let mut m = String::from_str("`");
                m.append(name);
                m.append("` query parameter not found");
                Err(Error::Unauthorized(m))
            },
        },
    }
}

// ------------------------------------------------------------------
// Location dispatch and the ordered search
// ------------------------------------------------------------------
/// What one configured location yields on a request.
pub open spec fn location_token_of(loc: JWTLocation, p: RequestPartsView) -> Option<Seq<char>> {
    match loc {
        JWTLocation::Bearer => match p.authorization {
            None => None,
            Some(h) => header_token_of(h),
        },
        JWTLocation::Cookie { name } => cookie_token_of(p, name@),
        JWTLocation::Query { name } => query_token_of(p, name@),
    }
}

/// Extract a token from one configured location.
pub fn extract_token_from_location(location: &JWTLocation, parts: &RequestParts) -> (r: Result<
    String,
    Error,
>)
    ensures
        (match *location {
            JWTLocation::Bearer => header_extraction_obligation(parts@, r),
            JWTLocation::Cookie { name } => cookie_extraction_obligation(parts@, name@, r),
            JWTLocation::Query { name } => query_extraction_obligation(parts@, name@, r),
        }),
        (match location_token_of(*location, parts@) {
            Some(t) => r matches Ok(s) && s@ == t,
            None => r is Err,
        }),
{
    match location {
        JWTLocation::Query { name } => extract_token_from_query(name.as_str(), parts),
        JWTLocation::Cookie { name } => extract_token_from_cookie(name.as_str(), parts),
        JWTLocation::Bearer => extract_token_from_header(parts),
    }
}

/// The ordered, non-empty location list a configuration stands for: the
/// single or multiple configured locations, or exactly `[Bearer]` when the
/// configuration is absent.
pub open spec fn locations_of(config: Option<JWTLocationConfig>) -> Seq<JWTLocation> {
    match config {
        None => seq![JWTLocation::Bearer],
        Some(JWTLocationConfig::Single(l)) => seq![l],
        Some(JWTLocationConfig::Multiple(ls)) => ls@,
    }
}

/// The list a configuration reference stands for, as [`locations_of`] over
/// the dereferenced option.
pub open spec fn locations_of_ref(config: Option<&JWTLocationConfig>) -> Seq<JWTLocation> {
    match config {
        None => locations_of(None),
        Some(c) => locations_of(Some(*c)),
    }
}

/// Get the list of locations to try, with `Bearer` as the default.
pub fn get_jwt_locations<'a>(config: Option<&'a JWTLocationConfig>) -> (r: Vec<&'a JWTLocation>)
    ensures
        r@.len() == locations_of_ref(config).len(),
        forall|j: int| 0 <= j < r@.len() ==> *r@[j] == locations_of_ref(config)[j],
{
    match config {
        Some(JWTLocationConfig::Single(location)) => vec![location],
        Some(JWTLocationConfig::Multiple(locations)) => {
            let mut out: Vec<&'a JWTLocation> = Vec::new();
            let mut i: usize = 0;
            while i < locations.len()
                invariant
                    i <= locations@.len(),
                    out@.len() == i,
                    forall|j: int| 0 <= j < i ==> *out@[j] == locations@[j],
                decreases locations@.len() - i,
            {
                out.push(&locations[i]);
                i += 1;
            }
            out
        },
        None => vec![&JWTLocation::Bearer],
    }
}

/// Well-formedness of a configured location list: an empty list is never
/// valid.
pub open spec fn wf_location_config(c: JWTLocationConfig) -> bool {
    match c {
        JWTLocationConfig::Single(_) => true,
        JWTLocationConfig::Multiple(ls) => ls.len() > 0,
    }
}

/// A well-formed configuration — or an absent one, which stands for the
/// default — always normalizes to a non-empty location list.
pub proof fn lemma_locations_nonempty(config: Option<JWTLocationConfig>)
    requires
        config matches Some(c) ==> wf_location_config(c),
    ensures
        locations_of(config).len() > 0,
{
}

/// What the ordered search returns: the token of the first location that
/// carries one, or nothing when none does.
pub open spec fn locate_spec(locs: Seq<JWTLocation>, p: RequestPartsView) -> Option<Seq<char>>
    decreases locs.len(),
{
    if locs.len() == 0 {
        None
    } else {
        match location_token_of(locs[0], p) {
            Some(t) => Some(t),
            None => locate_spec(locs.drop_first(), p),
        }
    }
}

/// First-match law: when every location before `i` carries no token and
/// location `i` carries one, the ordered search returns the token of
/// location `i`, whatever any later location carries.
pub proof fn lemma_locate_first(locs: Seq<JWTLocation>, p: RequestPartsView, i: int)
    requires
        0 <= i < locs.len(),
        location_token_of(locs[i], p) is Some,
        forall|j: int| 0 <= j < i ==> location_token_of(locs[j], p) is None,
    ensures
        locate_spec(locs, p) == location_token_of(locs[i], p),
    decreases i,
{
    if i > 0 {
        lemma_locate_first(locs.drop_first(), p, i - 1);
    }
}

/// Exhaustion law: when no location carries a token, the ordered search
/// yields nothing.
pub proof fn lemma_locate_none(locs: Seq<JWTLocation>, p: RequestPartsView)
    requires
        forall|j: int| 0 <= j < locs.len() ==> location_token_of(locs[j], p) is None,
    ensures
        locate_spec(locs, p) is None,
    decreases locs.len(),
{
    if locs.len() > 0 {
        lemma_locate_none(locs.drop_first(), p);
    }
}

/// Message when no configured location yields a token; it names the
/// configuration key to check.
pub open spec fn token_not_found_msg() -> Seq<char> {
    "Token not found in any of the configured JWT locations. Please check your auth.jwt.location configuration."@
}

/// Extract a token from the configured location settings, trying each
/// location in order and returning the first success.
pub fn extract_token(jwt_config: &JWTConfig, parts: &RequestParts) -> (r: Result<String, Error>)
    ensures
        (match locate_spec(locations_of(jwt_config.location), parts@) {
            Some(t) => r matches Ok(s) && s@ == t,
            None => r matches Err(e) && e@ == ErrorView::Unauthorized(token_not_found_msg()),
        }),
{
    let loc_ref = jwt_config.location.as_ref();
    let locations = get_jwt_locations(loc_ref);
    let ghost locs = locations_of(jwt_config.location);
    proof {
        assert(locs == locations_of_ref(loc_ref));
    }
    let mut i: usize = 0;
    while i < locations.len()
        invariant
            locs == locations_of(jwt_config.location),
            locations@.len() == locs.len(),
            forall|j: int| 0 <= j < locations@.len() ==> *locations@[j] == locs[j],
            i <= locations@.len(),
            forall|j: int| 0 <= j < i ==> location_token_of(locs[j], parts@) is None,
        decreases locations@.len() - i,
    {
        let location = locations[i];
        match extract_token_from_location(location, parts) {
            Ok(token) => {
                proof {
                    lemma_locate_first(locs, parts@, i as int);
                }
                return Ok(token);
            },
            Err(_) => {},
        }
        i += 1;
    }
    proof {
        lemma_locate_none(locs, parts@);
    }
    Err(
        Error::unauthorized(
            "Token not found in any of the configured JWT locations. Please check your auth.jwt.location configuration.",
        ),
    )
}

} // verus!
