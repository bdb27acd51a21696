//! A typed client for a music catalog service's two API surfaces: the
//! public, versioned catalog API and the unofficial private API used by the
//! service's own front end. The heart of the crate is the session and
//! pagination layer: acquiring and caching the short-lived private-API
//! token, shaping every outbound request with the protocol's bookkeeping
//! fields, checking every response envelope for a remote-reported error, and
//! walking cursor pagination to assemble complete result lists.

use vstd::prelude::*;
use vstd::string::StringSliceAdditionalSpecFns;

pub mod blocking;
pub mod decode;
pub mod form;
pub mod http;
pub mod json;
pub mod models;
pub mod query;
pub mod text;
pub mod track;

verus! {

/// The private API's single endpoint.
pub const GW_API_URL: &'static str = "http://www.deezer.com/ajax/gw-light.php";

/// The public catalog API's base origin.
pub const API_URL: &'static str = "https://api.deezer.com/";

/// The fixed browser-identifying transport header.
pub const USER_AGENT_HEADER: &'static str =
    "Mozilla/5.0 (X11; Linux x86_64) AppleWebKit/537.36 (KHTML, like Gecko) Chrome/115.0.5790.111 Safari/537.36";

/// The private-API method that issues the session token; the one method that
/// is called without a real token.
pub const USER_DATA_METHOD: &'static str = "deezer.getUserData";

/// The placeholder value held by the session-token cell before any successful
/// refresh of the private-API credential.
pub const TOKEN_SENTINEL: &'static str = "null";

/// Whether a stored token is, byte for byte, the sentinel.
pub open spec fn is_sentinel(t: Seq<char>) -> bool {
    vstd::utf8::encode_utf8(t) == TOKEN_SENTINEL.spec_bytes()
}

/// The sentinel is four bytes long, so a dispatched `api_token` that is
/// the sentinel is never empty.
pub proof fn lemma_sentinel_nonempty()
    ensures
        TOKEN_SENTINEL.spec_bytes().len() == 4,
{
    broadcast use vstd::utf8::is_ascii_chars_encode_utf8;

    reveal_strlit("null");
    assert(vstd::utf8::is_ascii_chars(TOKEN_SENTINEL@));
}

/// A fresh owned copy of the sentinel token.
pub fn sentinel_token() -> (r: String)
    ensures
        r@ == TOKEN_SENTINEL@,
        is_sentinel(r@),
{
    TOKEN_SENTINEL.to_owned()
}

/// The failure kinds every layer propagates unchanged: a transport failure,
/// a body that is not JSON or not the requested shape, a path that does not
/// resolve against the base, and a remote-reported error, surfaced as the
/// error object's rendered text.
#[derive(Debug, Clone, PartialEq, Eq)]
pub enum DeezerError {
    JsonError(String),
    RequestError(String),
    ApiError(String),
    ParseError(String),
}

} // verus!
