//! The JSON-RPC 2.0 envelope shapes: the outbound request with its exact wire
//! rendering, the inbound response, the error payload a response may carry,
//! and the decode-side error vocabulary.

use vstd::prelude::*;
use vstd::string::StringExecFns;

use crate::method::wire_string;
use crate::method::LspMethod;

verus! {

/// The fixed protocol version literal every envelope carries.
pub open spec fn protocol_version() -> Seq<char> {
    "2.0"@
}

/// What can go wrong on the decode side.
///
/// `UnknownMethod` marks a method-string lookup miss, `MalformedEnvelope` a
/// payload that is not structurally a valid envelope, and `ProtocolError` a
/// well-formed response whose `error` field reports a server-side failure.
#[derive(Clone, Copy, Debug, PartialEq, Eq)]
pub enum DecodeError {
    /// A wire method string outside the supported set.
    UnknownMethod,
    /// A payload that does not have the expected envelope shape.
    MalformedEnvelope,
    /// A response that carries a server-reported error.
    ProtocolError,
}

/// Standard error code: the server received invalid JSON.
pub const PARSE_ERROR: i32 = -32700;

/// Standard error code: the payload is not a valid request object.
pub const INVALID_REQUEST: i32 = -32600;

/// Standard error code: the method does not exist or is not available.
pub const METHOD_NOT_FOUND: i32 = -32601;

/// Standard error code: the method parameters are invalid.
pub const INVALID_PARAMS: i32 = -32602;

/// Standard error code: an internal server error.
pub const INTERNAL_ERROR: i32 = -32603;

/// Standard error code: the request was cancelled.
pub const REQUEST_CANCELLED: i32 = -32800;

/// Standard error code: the content a request refers to was modified.
pub const CONTENT_MODIFIED: i32 = -32801;

/// The error payload embedded in a failing response: a numeric code from the
/// JSON-RPC/LSP reserved space, a human-readable message, and an optional
/// opaque data value carried as its JSON text.
#[derive(Clone, Debug, PartialEq)]
pub struct JsonRpcError {
    /// Numeric error code.
    pub code: i32,
    /// Human-readable error message.
    pub message: String,
    /// Additional structured error information, if present. Decoding keeps it
    /// as the compact re-rendering of its JSON value, not the original span.
    pub data: Option<String>,
}

/// An outbound JSON-RPC request.
///
/// `params` holds the positional parameters, each already rendered as JSON
/// text; serializing an arbitrary caller value into such text is the caller's
/// concern, not this layer's.
#[derive(Clone, Debug, PartialEq)]
pub struct JsonRpcRequest {
    /// Protocol version tag; always the fixed `"2.0"` literal.
    pub jsonrpc: String,
    /// Wire string of the method to invoke.
    pub method: String,
    /// Positional parameters, each as JSON text.
    pub params: Vec<String>,
    /// Caller-assigned correlation id.
    pub id: u64,
}

/// An inbound JSON-RPC response.
///
/// `result` carries the result value as JSON text — when decoded, the compact
/// re-rendering of the value, not the original span; its shape depends on the
/// originating request's method and is opaque to this layer. Exactly one of
/// `result` and `error` should be present in a well-formed response, but the
/// bare struct does not enforce that; see [`JsonRpcResponse::outcome`].
#[derive(Clone, Debug, PartialEq)]
pub struct JsonRpcResponse {
    /// Protocol version tag as received.
    pub jsonrpc: String,
    /// Result of a successful call, as JSON text, if present.
    pub result: Option<String>,
    /// Error reported by the server, if present.
    pub error: Option<JsonRpcError>,
    /// Correlation id echoing the originating request.
    pub id: u64,
}

/// The character standing for a single decimal digit.
pub open spec fn digit_char(d: nat) -> char {
    if d == 0 {
        '0'
    } else if d == 1 {
        '1'
    } else if d == 2 {
        '2'
    } else if d == 3 {
        '3'
    } else if d == 4 {
        '4'
    } else if d == 5 {
        '5'
    } else if d == 6 {
        '6'
    } else if d == 7 {
        '7'
    } else if d == 8 {
        '8'
    } else {
        '9'
    }
}

/// The decimal rendering of a number, most significant digit first, with no
/// leading zeros (a single `'0'` for zero).
pub open spec fn decimal_str(n: nat) -> Seq<char>
    decreases n,
{
    if n < 10 {
        seq![digit_char(n)]
    } else {
        decimal_str(n / 10) + seq![digit_char(n % 10)]
    }
}

/// The comma-separated join of already-rendered parameter texts.
pub open spec fn join_comma(ps: Seq<Seq<char>>) -> Seq<char>
    decreases ps.len(),
{
    if ps.len() == 0 {
        Seq::empty()
    } else if ps.len() == 1 {
        ps[0]
    } else {
        join_comma(ps.drop_last()) + ","@ + ps.last()
    }
}

/// The exact wire text of a request envelope: the four fields in a stable
/// order, with the field names and the version literal required for
/// interoperability.
pub open spec fn render_request(
    jsonrpc: Seq<char>,
    method: Seq<char>,
    params: Seq<Seq<char>>,
    id: u64,
) -> Seq<char> {
    "{\"jsonrpc\":\""@ + jsonrpc + "\",\"method\":\""@ + method + "\",\"params\":["@
        + join_comma(params) + "],\"id\":"@ + decimal_str(id as nat) + "}"@
}

/// A single decimal digit as a one-character string.
fn digit_str(d: u64) -> (r: &'static str)
    requires
        d < 10,
    ensures
        r@ == seq![digit_char(d as nat)],
{
    let r: &'static str = match d {
        0 => "0",
        1 => "1",
        2 => "2",
        3 => "3",
        4 => "4",
        5 => "5",
        6 => "6",
        7 => "7",
        8 => "8",
        _ => "9",
    };
    proof {
        reveal_strlit("0");
        reveal_strlit("1");
        reveal_strlit("2");
        reveal_strlit("3");
        reveal_strlit("4");
        reveal_strlit("5");
        reveal_strlit("6");
        reveal_strlit("7");
        reveal_strlit("8");
        reveal_strlit("9");
        assert(r@ =~= seq![digit_char(d as nat)]);
    }
    r
}

/// Renders a number in decimal, most significant digit first.
fn u64_to_decimal(n: u64) -> (r: String)
    ensures
        r@ == decimal_str(n as nat),
    decreases n,
{
    if n < 10 {
        String::from_str(digit_str(n))
    } else {
        proof {
            assert(n / 10 < n) by (nonlinear_arith)
                requires
                    n >= 10,
            ;
        }
        let mut s = u64_to_decimal(n / 10);
        s.append(digit_str(n % 10));
        s
    }
}

impl JsonRpcRequest {
    /// A request whose protocol version tag holds the fixed literal.
    pub open spec fn wf(&self) -> bool {
        self.jsonrpc@ == protocol_version()
    }

    /// Builds a request around a method, its positional parameters (each as
    /// JSON text) and a caller-assigned correlation id. The protocol version
    /// is injected as the fixed constant, never taken from the caller. Always
    /// succeeds.
    pub fn build(method: LspMethod, params: Vec<String>, id: u64) -> (r: JsonRpcRequest)
        ensures
            r.wf(),
            r.method@ == wire_string(method),
            r.params == params,
            r.id == id,
    {
        JsonRpcRequest {
            jsonrpc: String::from_str("2.0"),
            method: String::from_str(method.to_string()),
            params,
            id,
        }
    }

    /// Serializes the request to its exact wire text.
    pub fn serialize(&self) -> (r: String)
        ensures
            r@ == render_request(self.jsonrpc@, self.method@, self.params.deep_view(), self.id),
    {
        let ghost ps = self.params.deep_view();
        let mut out = String::new();
        out.append("{\"jsonrpc\":\"");
        out.append(self.jsonrpc.as_str());
        out.append("\",\"method\":\"");
        out.append(self.method.as_str());
        out.append("\",\"params\":[");
        let ghost pre = out@;
        proof {
            assert(pre + join_comma(ps.take(0)) =~= pre);
        }
        let mut i: usize = 0;
        while i < self.params.len()
            invariant
                i <= self.params.len(),
                ps == self.params.deep_view(),
                out@ == pre + join_comma(ps.take(i as int)),
            decreases self.params.len() - i,
        {
            if i > 0 {
                out.append(",");
            }
            out.append(self.params[i].as_str());
            proof {
                assert(ps[i as int] == self.params@[i as int]@);
                assert(ps.take(i + 1).drop_last() =~= ps.take(i as int));
                assert(ps.take(i + 1).last() == ps[i as int]);
                if i == 0 {
                    assert(pre + join_comma(ps.take(1)) =~= pre + ps[0]);
                } else {
                    assert(pre + join_comma(ps.take(i + 1)) =~= pre + join_comma(ps.take(i as int))
                        + ","@ + ps[i as int]);
                }
            }
            i = i + 1;
        }
        proof {
            assert(ps.take(self.params.len() as int) =~= ps);
        }
        out.append("],\"id\":");
        let id_text = u64_to_decimal(self.id);
        out.append(id_text.as_str());
        out.append("}");
        proof {
            assert(out@ =~= render_request(self.jsonrpc@, self.method@, ps, self.id));
        }
        out
    }
}

impl JsonRpcResponse {
    /// Collapses the loosely-shaped response into the two-variant outcome the
    /// protocol intends: the result text when the call succeeded, or
    /// `ProtocolError` when the server reported a failure. A response carrying
    /// both fields or neither is malformed.
    pub fn outcome(&self) -> (r: Result<String, DecodeError>)
        ensures
            (match r {
                Ok(text) => {
                    &&& self.error is None
                    &&& self.result matches Some(t) && text@ == t@
                },
                Err(DecodeError::ProtocolError) => self.error is Some && self.result is None,
                Err(DecodeError::MalformedEnvelope) => (self.result is Some) == (self.error
                    is Some),
                Err(DecodeError::UnknownMethod) => false,
            }),
    {
        match (&self.result, &self.error) {
            (Some(text), None) => Ok(text.clone()),
            (None, Some(_)) => Err(DecodeError::ProtocolError),
            _ => Err(DecodeError::MalformedEnvelope),
        }
    }
}

} // verus!
