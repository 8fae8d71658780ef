//! The description of one HTTP request to the ingest endpoint, as plain
//! values: method, URL, authorization header value, and JSON body. The
//! transport layer issues exactly what stands here.

use vstd::prelude::*;

use crate::event::{event_models, pair_models, TrackingEvent};
use crate::json::{ingest_body, ingest_body_string};

verus! {

/// The default ingest endpoint.
pub const HUMIO_ENDPOINT: &'static str = "https://cloud.humio.com:443/api/v1/ingest/humio-structured";

/// Everything one POST to the ingest endpoint consists of. The transport
/// must send `body` to `url` with the method `method` and the header
/// `Authorization: <auth>`, and nothing else of substance.
pub struct RequestParts {
    pub method: String,
    pub url: String,
    pub auth: String,
    pub body: String,
}

/// The `Authorization` header value: the word `Bearer`, one space, and the
/// credential, unaltered.
pub open spec fn spec_auth_header(key: Seq<char>) -> Seq<char> {
    "Bearer "@ + key
}

/// Builds the `Authorization` header value for a credential.
pub fn auth_header_value(key: &str) -> (r: String)
    ensures
        r@ == spec_auth_header(key@),
{
    let mut s = String::from_str("Bearer ");
    s.append(key);
    s
}

/// Builds the request for one chunk: a POST of the ingest body for the tag
/// set and the chunk's events, to the given URL, bearing the credential.
pub fn request_parts(
    url: &str,
    key: &str,
    tags: &Vec<(String, String)>,
    chunk: &Vec<TrackingEvent>,
) -> (r: RequestParts)
    ensures
        r.method@ == "POST"@,
        r.url@ == url@,
        r.auth@ == spec_auth_header(key@),
        r.body@ == ingest_body(pair_models(tags@), event_models(chunk@)),
{
    RequestParts {
        method: String::from_str("POST"),
        url: String::from_str(url),
        auth: auth_header_value(key),
        body: ingest_body_string(tags, chunk),
    }
}

} // verus!
