//! Decoding of the endpoint's untagged response envelope.
//!
//! The endpoint answers the same route with one of three shapes and no
//! discriminant field: an error document `{"error": {"message", "waf_code"}}`
//! (a firewall rejection), an error document `{"error": {"message"}}` (a plain
//! rejection), or the success payload. Decoding tries the error shapes
//! most-specific-first and falls back to the success shape; a document that
//! matches none of them is malformed.

use vstd::prelude::*;
use crate::json::{JsonValue, spec_field, spec_str_field, spec_int_field, value_field};

verus! {

/// An error payload reported by the endpoint itself, distinguished by the
/// structural presence of a `waf_code` field.
#[derive(Debug)]
pub enum VRChatApiEndpointError {
    RejectedByWaf { message: String, waf_code: u32 },
    Plain { message: String },
}

impl VRChatApiEndpointError {
    /// The server-provided message text, whichever shape carried it.
    pub open spec fn spec_message(&self) -> Seq<char> {
        match self {
            VRChatApiEndpointError::RejectedByWaf { message, .. } => message@,
            VRChatApiEndpointError::Plain { message } => message@,
        }
    }

    /// The server-provided message text, surfaced verbatim to the operator.
    pub fn message(&self) -> (r: &str)
        ensures
            r@ == self.spec_message(),
    {
        match self {
            VRChatApiEndpointError::RejectedByWaf { message, .. } => message.as_str(),
            VRChatApiEndpointError::Plain { message } => message.as_str(),
        }
    }
}

/// One decoded response body: either an error the endpoint reported, or a
/// success value of type `T`.
pub enum VRChatApiEndpointResponse<T> {
    Error { error: VRChatApiEndpointError },
    Success(T),
}

impl<T> VRChatApiEndpointResponse<T> {
    /// The success value. The caller must already know the response is not an
    /// endpoint error; an error response is a fatal stop, never unwrapped.
    pub fn expect(self, message: &str) -> (r: T)
        requires
            self is Success,
        ensures
            self matches VRChatApiEndpointResponse::Success(t) && r == t,
    {
        match self {
            VRChatApiEndpointResponse::Success(t) => t,
            VRChatApiEndpointResponse::Error { .. } => vstd::pervasive::unreached(),
        }
    }
}

/// The nested error document, when the body carries one.
pub open spec fn spec_error_body(j: JsonValue) -> Option<JsonValue> {
    spec_field(j, "error"@)
}

/// The body matches some error shape: an `error` object with a textual
/// `message`.
pub open spec fn is_error_shape(j: JsonValue) -> bool {
    match spec_error_body(j) {
        Some(e) => spec_str_field(e, "message"@) is Some,
        None => false,
    }
}

/// The body matches the firewall-block shape: an error shape whose `waf_code`
/// is an integer that fits the code's width. This shape is strictly more
/// specific than the plain one and must be recognized first.
pub open spec fn is_waf_shape(j: JsonValue) -> bool {
    &&& is_error_shape(j)
    &&& match spec_error_body(j) {
        Some(e) => spec_int_field(e, "waf_code"@) matches Some(n) && 0 <= n <= u32::MAX,
        None => false,
    }
}

/// The message text of an error-shaped body.
pub open spec fn spec_error_message(j: JsonValue) -> Seq<char>
    recommends
        is_error_shape(j),
{
    spec_str_field(spec_error_body(j).unwrap(), "message"@).unwrap()
}

/// The firewall code of a firewall-shaped body.
pub open spec fn spec_waf_code(j: JsonValue) -> int
    recommends
        is_waf_shape(j),
{
    spec_int_field(spec_error_body(j).unwrap(), "waf_code"@).unwrap()
}

/// The firewall-block shape is strictly more specific than the plain error
/// shape: every body matching it matches the plain shape too. This is why
/// decoding must try the firewall shape first — trying the plain shape first
/// would swallow the firewall code and misreport the rejection.
pub proof fn lemma_waf_shape_is_error_shape(j: JsonValue)
    requires
        is_waf_shape(j),
    ensures
        is_error_shape(j),
{
}

/// Decode the error shapes, most specific first: `Some` exactly on
/// error-shaped bodies, a firewall rejection exactly when `waf_code` is
/// present and fits.
pub fn decode_error(j: &JsonValue) -> (r: Option<VRChatApiEndpointError>)
    ensures
        is_waf_shape(*j) ==> (r matches Some(e)
            && e matches VRChatApiEndpointError::RejectedByWaf { message, waf_code }
            && message@ == spec_error_message(*j)
            && waf_code as int == spec_waf_code(*j)),
        is_error_shape(*j) && !is_waf_shape(*j) ==> (r matches Some(e)
            && e matches VRChatApiEndpointError::Plain { message }
            && message@ == spec_error_message(*j)),
        !is_error_shape(*j) ==> r is None,
{
    let body = match value_field(j, "error") {
        Some(b) => b,
        None => {
            return None;
        },
    };
    let message = match value_field(body, "message") {
        Some(JsonValue::Text(m)) => m.clone(),
        _ => {
            return None;
        },
    };
    match value_field(body, "waf_code") {
        Some(JsonValue::Int(n)) if 0 <= *n && *n <= u32::MAX as i64 => {
            Some(VRChatApiEndpointError::RejectedByWaf { message, waf_code: *n as u32 })
        },
        _ => Some(VRChatApiEndpointError::Plain { message }),
    }
}

} // verus!
