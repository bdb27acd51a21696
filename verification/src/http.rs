//! The transport layer: one reusable HTTP client from the `reqwest` crate,
//! configured with the fixed identity header, the fixed language preference,
//! persistent cookies and the fixed timeout, plus URL resolution from the
//! `url` crate. Each outside call sits behind one trusted function; what a
//! call returns over the network is never promised, only URL resolution,
//! which depends on its arguments alone, has a named result.

use vstd::prelude::*;

verus! {

#[verifier::external_type_specification]
#[verifier::external_body]
pub struct ExClient(reqwest::blocking::Client);

/// Relies on reqwest's blocking ClientBuilder: a client with the given
/// default headers, a cookie store, and the given request timeout; `Err`
/// carries the builder's message when the transport cannot be built.
#[verifier::external_body]
pub(crate) fn build_http_client(user_agent: &str, accept_language: &str, timeout_secs: u64) -> (r:
    Result<reqwest::blocking::Client, String>)
{
    let ua = reqwest::header::HeaderValue::from_str(user_agent).map_err(|e| e.to_string())?;
    let al = reqwest::header::HeaderValue::from_str(accept_language).map_err(|e| e.to_string())?;
    let mut headers = reqwest::header::HeaderMap::new();
    headers.insert(reqwest::header::USER_AGENT, ua);
    headers.insert(reqwest::header::ACCEPT_LANGUAGE, al);
    reqwest::blocking::Client::builder().cookie_store(true).default_headers(headers).timeout(
        core::time::Duration::from_secs(timeout_secs),
    ).build().map_err(|e| e.to_string())
}

/// Relies on reqwest's blocking GET: the response body as text, or the
/// transport error's message. What comes back depends on the network.
#[verifier::external_body]
pub(crate) fn http_get(c: &reqwest::blocking::Client, url: &Vec<u8>) -> (r: Result<String, String>)
{
    let url = String::from_utf8_lossy(url).into_owned();
    c.get(url).send().and_then(|resp| resp.text()).map_err(|e| e.to_string())
}

/// Relies on reqwest's blocking POST with a form body: the given pairs are
/// form-encoded, the response body comes back as text. What comes back
/// depends on the network.
#[verifier::external_body]
pub(crate) fn http_post_form(
    c: &reqwest::blocking::Client,
    url: &str,
    fields: &Vec<(Vec<u8>, Vec<u8>)>,
) -> (r: Result<String, String>)
{
    let pairs: Vec<(String, String)> = fields.iter().map(
        |kv| (String::from_utf8_lossy(&kv.0).into_owned(), String::from_utf8_lossy(&kv.1).into_owned()),
    ).collect();
    c.post(url).form(&pairs).send().and_then(|resp| resp.text()).map_err(|e| e.to_string())
}

/// Relies on reqwest's blocking POST with a raw body: the bytes are sent as
/// a JSON-typed request body, the response body comes back as text. What
/// comes back depends on the network.
#[verifier::external_body]
pub(crate) fn http_post_json(c: &reqwest::blocking::Client, url: &Vec<u8>, body: Vec<u8>) -> (r:
    Result<String, String>)
{
    let url = String::from_utf8_lossy(url).into_owned();
    c.post(url).header(reqwest::header::CONTENT_TYPE, "application/json").body(body).send()
        .and_then(|resp| resp.text()).map_err(|e| e.to_string())
}

/// The URL that resolving `path` against `base` yields, when either the
/// base parse or the resolution succeeds on both; the result depends on the
/// two texts alone.
pub uninterp spec fn url_joined(base: Seq<char>, path: Seq<u8>) -> Option<Seq<u8>>;

/// Relies on url::Url::parse and url::Url::join: standard relative-reference
/// resolution, an absolute `path` replacing the base; `Err` carries the
/// parser's message exactly when resolution fails.
#[verifier::external_body]
pub(crate) fn resolve_url(base: &str, path: &Vec<u8>) -> (r: Result<Vec<u8>, String>)
    ensures
        match r {
            Ok(u) => url_joined(base@, path@) == Some(u@),
            Err(_) => url_joined(base@, path@) is None,
        },
{
    let path = String::from_utf8_lossy(path).into_owned();
    match url::Url::parse(base).and_then(|b| b.join(&path)) {
        Ok(u) => Ok(u.as_str().as_bytes().to_vec()),
        Err(e) => Err(e.to_string()),
    }
}

/// The URL that attaching the given query pairs to `base` yields, when
/// `base` parses; the result depends on the arguments alone.
pub uninterp spec fn url_with_query(base: Seq<char>, params: Seq<(Seq<u8>, Seq<u8>)>) -> Option<
    Seq<u8>,
>;

/// Relies on url::Url::parse_with_params: `base` with the pairs appended to
/// its query, percent-encoded; `Err` carries the parser's message exactly
/// when `base` does not parse.
#[verifier::external_body]
pub(crate) fn url_append_params(base: &str, params: &Vec<(Vec<u8>, Vec<u8>)>) -> (r: Result<
    Vec<u8>,
    String,
>)
    ensures
        match r {
            Ok(u) => url_with_query(base@, crate::form::param_views(params@)) == Some(u@),
            Err(_) => url_with_query(base@, crate::form::param_views(params@)) is None,
        },
{
    let pairs: Vec<(String, String)> = params.iter().map(
        |kv| (String::from_utf8_lossy(&kv.0).into_owned(), String::from_utf8_lossy(&kv.1).into_owned()),
    ).collect();
    match url::Url::parse_with_params(base, &pairs) {
        Ok(u) => Ok(u.as_str().as_bytes().to_vec()),
        Err(e) => Err(e.to_string()),
    }
}

} // verus!
