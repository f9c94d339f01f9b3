//! The slice of an inbound request that the pipeline reads.
//!
//! The pipeline never sees a whole request: it reads the `authorization`
//! header, the `Cookie` header, and the request URI, and writes nothing
//! back. A host adapter fills this struct from its own request type.

use vstd::prelude::*;

verus! {

/// The request data the credential locator consumes.
pub struct RequestParts {
    /// The decoded text of the `authorization` header, if the request
    /// carries one.
    pub authorization: Option<String>,
    /// The text of the `Cookie` header, if the request carries one.
    pub cookie: Option<String>,
    /// The request URI, including any query string.
    pub uri: String,
}

/// The mathematical model of [`RequestParts`].
pub struct RequestPartsView {
    pub authorization: Option<Seq<char>>,
    pub cookie: Option<Seq<char>>,
    pub uri: Seq<char>,
}

impl View for RequestParts {
    type V = RequestPartsView;

    open spec fn view(&self) -> RequestPartsView {
        RequestPartsView {
            authorization: match self.authorization {
                Some(h) => Some(h@),
                None => None,
            },
            cookie: match self.cookie {
                Some(c) => Some(c@),
                None => None,
            },
            uri: self.uri@,
        }
    }
}

} // verus!
