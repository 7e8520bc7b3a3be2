//! Decoding of inbound response envelopes: serde_json reads the raw text, and
//! the envelope shape is checked and assembled here.
//!
//! Each member of the envelope reaches the verified code as a plain value
//! through a trusted wrapper, and the wrapper's contract names that value as a
//! function of the document text alone. The decoder's own contract then fixes,
//! over those names, exactly when decoding succeeds and what every decoded
//! field holds.

use vstd::prelude::*;

use crate::envelope::DecodeError;
use crate::envelope::JsonRpcError;
use crate::envelope::JsonRpcResponse;
use crate::method::str_eq;

verus! {

/// The string content of the named member of a JSON document's top-level
/// value: `Some` exactly when the text parses as a JSON document whose
/// top-level value has that member and the member is a JSON string. A
/// function of the text and the key alone.
pub uninterp spec fn member_str_of(s: Seq<char>, key: Seq<char>) -> Option<Seq<char>>;

/// The number held by the named member of a JSON document's top-level value:
/// `Some` exactly when the member exists and is an unsigned integer that fits
/// in `u64`. A function of the text and the key alone.
pub uninterp spec fn member_u64_of(s: Seq<char>, key: Seq<char>) -> Option<u64>;

/// The number held by the named member of a JSON document's top-level value:
/// `Some` exactly when the member exists and is a signed integer that fits in
/// `i64`. A function of the text and the key alone.
pub uninterp spec fn member_i64_of(s: Seq<char>, key: Seq<char>) -> Option<i64>;

/// The compact JSON text of the named member of a JSON document's top-level
/// value: `Some` exactly when the member exists and can be rendered. A
/// function of the text and the key alone.
pub uninterp spec fn member_text_of(s: Seq<char>, key: Seq<char>) -> Option<Seq<char>>;

/// Relies on serde_json's `from_str::<Value>`, `Value::get` and
/// `Value::as_str`: selects the named member of the document's top-level
/// value and hands its string content out.
#[verifier::external_body]
fn json_member_str(s: &str, key: &str) -> (r: Option<String>)
    ensures
        r.deep_view() == member_str_of(s@, key@),
{
    let doc = serde_json::from_str::<serde_json::Value>(s).ok()?;
    Some(doc.get(key)?.as_str()?.to_owned())
}

/// Relies on serde_json's `from_str::<Value>`, `Value::get` and
/// `Value::as_u64`: selects the named member of the document's top-level
/// value and hands it out as an unsigned integer.
#[verifier::external_body]
fn json_member_u64(s: &str, key: &str) -> (r: Option<u64>)
    ensures
        r == member_u64_of(s@, key@),
{
    let doc = serde_json::from_str::<serde_json::Value>(s).ok()?;
    doc.get(key)?.as_u64()
}

/// Relies on serde_json's `from_str::<Value>`, `Value::get` and
/// `Value::as_i64`: selects the named member of the document's top-level
/// value and hands it out as a signed integer.
#[verifier::external_body]
fn json_member_i64(s: &str, key: &str) -> (r: Option<i64>)
    ensures
        r == member_i64_of(s@, key@),
{
    let doc = serde_json::from_str::<serde_json::Value>(s).ok()?;
    doc.get(key)?.as_i64()
}

/// Relies on serde_json's `from_str::<Value>`, `Value::get` and `to_string`:
/// selects the named member of the document's top-level value and hands its
/// compact re-rendered JSON text out.
#[verifier::external_body]
fn json_member_text(s: &str, key: &str) -> (r: Option<String>)
    ensures
        r.deep_view() == member_text_of(s@, key@),
{
    let doc = serde_json::from_str::<serde_json::Value>(s).ok()?;
    serde_json::to_string(doc.get(key)?).ok()
}

/// A member treated as optional on the wire: a member holding JSON `null`
/// counts as absent, as it would under the envelope's optional fields.
pub open spec fn optional_member(s: Seq<char>, key: Seq<char>) -> Option<Seq<char>> {
    match member_text_of(s, key) {
        Some(t) => if t == "null"@ {
            None
        } else {
            Some(t)
        },
        None => None,
    }
}

/// Whether the text of an `error` member has the required shape: an integer
/// `code` in `i32` range and a string `message`.
pub open spec fn error_member_wf(e: Seq<char>) -> bool {
    &&& member_i64_of(e, "code"@) matches Some(c) && -2147483648 <= c <= 2147483647
    &&& member_str_of(e, "message"@) is Some
}

/// How a decoded error payload relates to the text of the `error` member it
/// was decoded from.
pub open spec fn error_decodes_to(e: Seq<char>, err: JsonRpcError) -> bool {
    &&& member_i64_of(e, "code"@) == Some(err.code as i64)
    &&& member_str_of(e, "message"@) matches Some(m) && err.message@ == m
    &&& err.data.deep_view() == optional_member(e, "data"@)
}

/// Whether a text has the response-envelope shape: a JSON document whose
/// top-level value carries the protocol version tag as a string, the
/// correlation `id` as an unsigned integer, and, when an `error` member is
/// present and not null, a well-shaped error object. `result` needs no
/// condition: any JSON value is acceptable there, and its shape is opaque to
/// this layer.
pub open spec fn envelope_wf(s: Seq<char>) -> bool {
    &&& member_str_of(s, "jsonrpc"@) is Some
    &&& member_u64_of(s, "id"@) is Some
    &&& (optional_member(s, "error"@) matches Some(e) ==> error_member_wf(e))
}

/// How a decoded response relates to the document text it was decoded from:
/// every field equals the corresponding member of the text, with absent and
/// null members decoding to `None`.
pub open spec fn response_decodes_to(s: Seq<char>, r: JsonRpcResponse) -> bool {
    &&& member_str_of(s, "jsonrpc"@) == Some(r.jsonrpc@)
    &&& member_u64_of(s, "id"@) == Some(r.id)
    &&& r.result.deep_view() == optional_member(s, "result"@)
    &&& (match optional_member(s, "error"@) {
        Some(e) => r.error matches Some(err) && error_decodes_to(e, err),
        None => r.error is None,
    })
}

/// Decodes the text of an `error` member: an object carrying an integer
/// `code` in `i32` range, a string `message`, and optional `data` kept as its
/// JSON text. Anything else is a malformed envelope.
fn parse_error_object(e: &str) -> (r: Result<JsonRpcError, DecodeError>)
    ensures
        r is Ok <==> error_member_wf(e@),
        r matches Ok(err) ==> error_decodes_to(e@, err),
        r matches Err(err) ==> err == DecodeError::MalformedEnvelope,
{
    let code_wide = match json_member_i64(e, "code") {
        Some(n) => n,
        None => {
            return Err(DecodeError::MalformedEnvelope);
        },
    };
    if code_wide < -2147483648i64 || code_wide > 2147483647i64 {
        return Err(DecodeError::MalformedEnvelope);
    }
    let code = code_wide as i32;
    let message = match json_member_str(e, "message") {
        Some(text) => text,
        None => {
            return Err(DecodeError::MalformedEnvelope);
        },
    };
    let data = match json_member_text(e, "data") {
        Some(text) => if str_eq(text.as_str(), "null") {
            None
        } else {
            Some(text)
        },
        None => None,
    };
    Ok(JsonRpcError { code, message, data })
}

impl JsonRpcResponse {
    /// Decodes a response envelope from raw text. Succeeds exactly on texts
    /// with the envelope shape (see [`envelope_wf`]), and every decoded field
    /// then equals the corresponding member of the text (see
    /// [`response_decodes_to`]); everything else fails with
    /// `MalformedEnvelope`. The `result` member and the error's `data` member
    /// are kept as serde_json's compact re-rendering of their JSON text.
    /// Whether `result` and `error` exclude each other is not checked here;
    /// see [`JsonRpcResponse::outcome`].
    pub fn parse(s: &str) -> (r: Result<JsonRpcResponse, DecodeError>)
        ensures
            r is Ok <==> envelope_wf(s@),
            r matches Ok(resp) ==> response_decodes_to(s@, resp),
            r matches Err(e) ==> e == DecodeError::MalformedEnvelope,
    {
        let jsonrpc = match json_member_str(s, "jsonrpc") {
            Some(text) => text,
            None => {
                return Err(DecodeError::MalformedEnvelope);
            },
        };
        let id = match json_member_u64(s, "id") {
            Some(n) => n,
            None => {
                return Err(DecodeError::MalformedEnvelope);
            },
        };
        let result = match json_member_text(s, "result") {
            Some(text) => if str_eq(text.as_str(), "null") {
                None
            } else {
                Some(text)
            },
            None => None,
        };
        let error = match json_member_text(s, "error") {
            Some(text) => if str_eq(text.as_str(), "null") {
                None
            } else {
                match parse_error_object(text.as_str()) {
                    Ok(err) => Some(err),
                    Err(e) => {
                        return Err(e);
                    },
                }
            },
            None => None,
        };
        Ok(JsonRpcResponse { jsonrpc, result, error, id })
    }
}

} // verus!
