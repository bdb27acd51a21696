//! The bridge from raw response text to [`Json`].
//!
//! Parsing is done by the `serde_json` crate; its `Value` is opaque here, so
//! the parse and the one-for-one copy of its variants into the crate's own
//! [`Json`] tree are trusted, and the parse result — a function of the text
//! alone — is named by [`json_of`]. Everything downstream of the copy is
//! verified against that name.

use vstd::prelude::*;
use vstd::utf8::{encode_utf8, valid_utf8};
use crate::json::Json;

verus! {

#[verifier::external_type_specification]
#[verifier::external_body]
pub struct ExValue(serde_json::Value);

/// The tree that parsing a body as one JSON document yields, if any: a
/// function of the text alone (members in the parser's stored order,
/// numbers as the parser's own lexemes).
pub uninterp spec fn json_of(body: Seq<char>) -> Option<Json>;

/// Relies on serde_json's Value being a plain tree: one arm per variant,
/// elements and members copied one for one (numbers through the parser's
/// own rendering), order kept.
#[verifier::external_body]
fn value_to_json(v: &serde_json::Value) -> (r: Json)
{
    match v {
        serde_json::Value::Null => Json::Null,
        serde_json::Value::Bool(b) => Json::Bool(*b),
        serde_json::Value::Number(n) => Json::Num(n.to_string().into_bytes()),
        serde_json::Value::String(s) => Json::Str(s.as_bytes().to_vec()),
        serde_json::Value::Array(a) => Json::Arr(a.iter().map(value_to_json).collect()),
        serde_json::Value::Object(m) => Json::Obj(
            m.iter().map(|(k, w)| (k.as_bytes().to_vec(), value_to_json(w))).collect(),
        ),
    }
}

/// Relies on serde_json::from_str: `Ok` exactly when the text is one valid
/// JSON document (within the parser's nesting limit), and the result is a
/// function of the text alone; `Err` carries the parser's message.
#[verifier::external_body]
pub(crate) fn parse_json(body: &str) -> (r: Result<Json, String>)
    ensures
        r matches Ok(j) ==> json_of(body@) == Some(j),
        r is Err <==> json_of(body@) is None,
{
    match serde_json::from_str::<serde_json::Value>(body) {
        Ok(v) => Ok(value_to_json(&v)),
        Err(e) => Err(e.to_string()),
    }
}

/// The view of text decoded from bytes by lossy UTF-8 decoding.
pub uninterp spec fn lossy_utf8(b: Seq<u8>) -> Seq<char>;

/// Relies on String::from_utf8_lossy: the result depends on the bytes alone,
/// and valid UTF-8 decodes to the text it encodes.
#[verifier::external_body]
pub(crate) fn bytes_to_string(b: &Vec<u8>) -> (r: String)
    ensures
        r@ == lossy_utf8(b@),
        valid_utf8(b@) ==> encode_utf8(r@) == b@,
{
    String::from_utf8_lossy(b).into_owned()
}

} // verus!
