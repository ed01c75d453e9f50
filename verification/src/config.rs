//! The partially-modeled configuration object and the extraction of its one
//! interesting field: the bootstrap installer's download URL, found at the
//! nested key path `downloadUrls.bootstrap`.

use vstd::prelude::*;
use crate::envelope::{
    VRChatApiEndpointError, VRChatApiEndpointResponse, decode_error, is_error_shape, is_waf_shape,
    spec_error_message, spec_waf_code,
};
use crate::error::FatalError;
use crate::json::{JsonValue, spec_field, spec_str_field, value_field};

verus! {

/// The descriptor of the bootstrap installer artifact. Only its download URL
/// is modeled; the endpoint sends many more fields, all ignored.
pub struct BootstrapBinaryDistribution {
    pub url: String,
}

/// Partial view of the endpoint's configuration object: just the descriptor
/// holding the bootstrap download URL.
pub struct VRChatPackageManagerConfig {
    pub bootstrap_install: BootstrapBinaryDistribution,
}

/// The string at the nested key path `downloadUrls.bootstrap`, if present.
pub open spec fn spec_bootstrap_url(j: JsonValue) -> Option<Seq<char>> {
    match spec_field(j, "downloadUrls"@) {
        Some(d) => spec_str_field(d, "bootstrap"@),
        None => None,
    }
}

/// The body matches the success payload shape: the nested download URL field
/// is present and textual.
pub open spec fn is_success_shape(j: JsonValue) -> bool {
    spec_bootstrap_url(j) is Some
}

/// Decode the success payload: `Some` exactly on success-shaped bodies,
/// carrying the URL string found at the nested key path, verbatim.
pub fn decode_config(j: &JsonValue) -> (r: Option<VRChatPackageManagerConfig>)
    ensures
        is_success_shape(*j) ==> (r matches Some(c)
            && c.bootstrap_install.url@ == spec_bootstrap_url(*j).unwrap()),
        !is_success_shape(*j) ==> r is None,
{
    let distribution = match value_field(j, "downloadUrls") {
        Some(d) => d,
        None => {
            return None;
        },
    };
    match value_field(distribution, "bootstrap") {
        Some(JsonValue::Text(u)) => Some(VRChatPackageManagerConfig {
            bootstrap_install: BootstrapBinaryDistribution { url: u.clone() },
        }),
        _ => None,
    }
}

/// Decode one response body into the envelope: the error shapes are tried
/// most-specific-first, then the success shape; anything else is malformed.
pub fn decode_response(j: &JsonValue) -> (r: Result<
    VRChatApiEndpointResponse<VRChatPackageManagerConfig>,
    FatalError,
>)
    ensures
        is_waf_shape(*j) ==> (r matches Ok(v)
            && v matches VRChatApiEndpointResponse::Error { error }
            && error matches VRChatApiEndpointError::RejectedByWaf { message, waf_code }
            && message@ == spec_error_message(*j)
            && waf_code as int == spec_waf_code(*j)),
        is_error_shape(*j) && !is_waf_shape(*j) ==> (r matches Ok(v)
            && v matches VRChatApiEndpointResponse::Error { error }
            && error matches VRChatApiEndpointError::Plain { message }
            && message@ == spec_error_message(*j)),
        !is_error_shape(*j) && is_success_shape(*j) ==> (r matches Ok(v)
            && v matches VRChatApiEndpointResponse::Success(c)
            && c.bootstrap_install.url@ == spec_bootstrap_url(*j).unwrap()),
        !is_error_shape(*j) && !is_success_shape(*j) ==> r matches Err(
            FatalError::MalformedResponse,
        ),
{
    if let Some(error) = decode_error(j) {
        return Ok(VRChatApiEndpointResponse::Error { error });
    }
    match decode_config(j) {
        Some(c) => Ok(VRChatApiEndpointResponse::Success(c)),
        None => Err(FatalError::MalformedResponse),
    }
}

/// Decode one response body straight to the pipeline's view of it: the
/// success payload, or the fatal error that stops the run (an endpoint
/// rejection surfaces as `ApiRejected`, an unrecognized shape as
/// `MalformedResponse`).
pub fn decode_envelope(j: &JsonValue) -> (r: Result<VRChatPackageManagerConfig, FatalError>)
    ensures
        is_waf_shape(*j) ==> (r matches Err(FatalError::ApiRejected { error })
            && error matches VRChatApiEndpointError::RejectedByWaf { message, waf_code }
            && message@ == spec_error_message(*j)
            && waf_code as int == spec_waf_code(*j)),
        is_error_shape(*j) && !is_waf_shape(*j) ==> (r matches Err(
            FatalError::ApiRejected { error },
        )
            && error matches VRChatApiEndpointError::Plain { message }
            && message@ == spec_error_message(*j)),
        !is_error_shape(*j) && is_success_shape(*j) ==> (r matches Ok(c)
            && c.bootstrap_install.url@ == spec_bootstrap_url(*j).unwrap()),
        !is_error_shape(*j) && !is_success_shape(*j) ==> r matches Err(
            FatalError::MalformedResponse,
        ),
{
    match decode_response(j) {
        Ok(VRChatApiEndpointResponse::Success(c)) => Ok(c),
        Ok(VRChatApiEndpointResponse::Error { error }) => Err(FatalError::ApiRejected { error }),
        Err(e) => Err(e),
    }
}

/// Whether the `url` crate parses `s` as a syntactically valid absolute URL;
/// the outcome depends on the string alone.
pub uninterp spec fn url_parse_ok(s: Seq<char>) -> bool;

/// Relies on `url::Url::parse`, which returns `Ok` exactly on strings it can
/// parse as absolute URLs and never panics; the result is a function of the
/// input string alone.
#[verifier::external_body]
fn parse_absolute_url(s: &str) -> (r: bool)
    ensures
        r == url_parse_ok(s@),
{
    url::Url::parse(s).is_ok()
}

impl VRChatPackageManagerConfig {
    /// Extract the bootstrap download URL: the literal string found at the
    /// nested key path, accepted only when it parses as an absolute URL.
    pub fn extract_download_url(&self) -> (r: Result<String, FatalError>)
        ensures
            url_parse_ok(self.bootstrap_install.url@) ==> (r matches Ok(u)
                && u@ == self.bootstrap_install.url@),
            !url_parse_ok(self.bootstrap_install.url@) ==> r matches Err(
                FatalError::MissingOrInvalidField,
            ),
    {
        if parse_absolute_url(self.bootstrap_install.url.as_str()) {
            Ok(self.bootstrap_install.url.clone())
        } else {
            Err(FatalError::MissingOrInvalidField)
        }
    }
}

} // verus!
