//! The model registry exchange: the request body that names a model, and the
//! reading of the reply that carries a short-lived download URL.
use vstd::prelude::*;

use crate::error::ModelError;

verus! {

/// HTTP status of a request whose credential was refused.
pub const STATUS_UNAUTHORIZED: u16 = 401;

/// Detail of the `Auth` error for a refused credential.
pub const INVALID_TOKEN: &'static str = "Invalid token";

/// Detail of the `Network` error for a reply that carries no URL.
pub const INVALID_URL_RESPONSE: &'static str = "Invalid URL response";

/// Detail of the `Network` error for a reply whose status is not a success.
pub const REGISTRY_REQUEST_FAILED: &'static str = "Registry request failed";

/// A 2xx HTTP status.
pub open spec fn is_success(status: u16) -> bool {
    200 <= status < 300
}

/// The bytes of a text made of ASCII characters.
pub open spec fn ascii_bytes(s: Seq<char>) -> Seq<u8> {
    s.map_values(|c: char| c as u8)
}

/// `s` written as a JSON string literal, quotes included, in UTF-8.
pub uninterp spec fn json_string(s: Seq<char>) -> Seq<u8>;

/// The compact JSON text `{"model_name":<model>}`.
pub open spec fn request_json(model: Seq<char>) -> Seq<u8> {
    ascii_bytes("{\"model_name\":"@) + json_string(model) + ascii_bytes("}"@)
}

/// Relies on `serde_json::to_vec`, which writes a `Value::Object` compactly
/// (`{`, each key and value joined by `:`, `}`) and cannot fail on an object,
/// whose keys are strings.
#[verifier::external_body]
pub(crate) fn encode_request(model: &str) -> (r: Vec<u8>)
    ensures
        r@ == ascii_bytes("{\"model_name\":"@) + json_string(model@) + ascii_bytes("}"@),
{
    let mut object = serde_json::Map::new();
    object.insert("model_name".to_string(), serde_json::Value::String(model.to_string()));
    serde_json::to_vec(&serde_json::Value::Object(object)).unwrap_or_default()
}

/// The string member `url` of `body` read as a JSON value; `None` where the
/// body is not JSON, or has no such member, or it is not a string.
pub uninterp spec fn json_url_member(body: Seq<u8>) -> Option<Seq<char>>;

/// Relies on `serde_json::from_slice` to parse the body as a `Value`, then on
/// `Value::get` and `Value::as_str` to read its string member `url`.
#[verifier::external_body]
fn url_member(body: &[u8]) -> (r: Option<String>)
    ensures
        match json_url_member(body@) {
            Some(u) => r is Some && r->Some_0@ == u,
            None => r is None,
        },
{
    let value: serde_json::Value = serde_json::from_slice(body).ok()?;
    value.get("url").and_then(|u| u.as_str()).map(|u| u.to_string())
}

/// The text held by `url`, if any.
pub open spec fn option_view(url: Option<String>) -> Option<Seq<char>> {
    match url {
        Some(u) => Some(u@),
        None => None,
    }
}

/// `r` is the registry's verdict for `status` and `url`: the URL on success,
/// otherwise the error of that case with its detail text.
pub open spec fn registry_verdict(status: u16, url: Option<Seq<char>>, r: Result<String, ModelError>) -> bool {
    if status == STATUS_UNAUTHORIZED {
        r matches Err(ModelError::Auth(d)) && d@ == INVALID_TOKEN@
    } else if !is_success(status) {
        r matches Err(ModelError::Network(d)) && d@ == REGISTRY_REQUEST_FAILED@
    } else {
        match url {
            Some(u) => r is Ok && r->Ok_0@ == u,
            None => r matches Err(ModelError::Network(d)) && d@ == INVALID_URL_RESPONSE@,
        }
    }
}

/// What the registry's reply means, given its status and the `url` member
/// read from its body.
///
/// An unauthorized status is an `Auth` error; any other status that is not a
/// success, or a success without a URL, is a `Network` error.
pub fn interpret_registry_reply(status: u16, url: Option<String>) -> (r: Result<String, ModelError>)
    ensures
        registry_verdict(status, option_view(url), r),
{
    if status == STATUS_UNAUTHORIZED {
        return Err(ModelError::Auth(String::from_str(INVALID_TOKEN)));
    }
    if status < 200 || status >= 300 {
        return Err(ModelError::Network(String::from_str(REGISTRY_REQUEST_FAILED)));
    }
    match url {
        Some(u) => Ok(u),
        None => Err(ModelError::Network(String::from_str(INVALID_URL_RESPONSE))),
    }
}

/// Reads the download URL out of the registry's reply; the body is parsed
/// only for a success status.
pub fn url_from_reply(status: u16, body: &Vec<u8>) -> (r: Result<String, ModelError>)
    ensures
        registry_verdict(status, json_url_member(body@), r),
{
    if !(200 <= status && status < 300) {
        return interpret_registry_reply(status, None);
    }
    let url = url_member(body.as_slice());
    interpret_registry_reply(status, url)
}

} // verus!
