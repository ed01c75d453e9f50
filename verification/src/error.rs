//! The fatal error taxonomy of the pipeline. Every variant aborts the run;
//! a failed deletion of the staged file is the one non-fatal condition and is
//! reported as a plain diagnostic string instead.

use vstd::prelude::*;
use crate::envelope::VRChatApiEndpointError;

verus! {

/// A condition that aborts the pipeline at the point of detection. There is
/// no retry and no fallback for any of them.
#[derive(Debug)]
pub enum FatalError {
    /// Request construction or network failure.
    TransportError { detail: String },
    /// The body matched neither a known error shape nor the success shape.
    MalformedResponse,
    /// The endpoint itself reported an error.
    ApiRejected { error: VRChatApiEndpointError },
    /// The nested download URL field was absent or not a valid absolute URL.
    MissingOrInvalidField,
    /// The staged file could not be created, written, or flushed.
    StagingIoError { detail: String },
}

impl FatalError {
    /// A short fixed name of the failure kind, for operator-facing messages.
    pub fn kind_name(&self) -> (r: &'static str)
        ensures
            self is TransportError ==> r@ == "transport error"@,
            self is MalformedResponse ==> r@ == "malformed response"@,
            self is ApiRejected ==> r@ == "endpoint rejected the request"@,
            self is MissingOrInvalidField ==> r@ == "missing or invalid field"@,
            self is StagingIoError ==> r@ == "staging failed"@,
    {
        match self {
            FatalError::TransportError { .. } => "transport error",
            FatalError::MalformedResponse => "malformed response",
            FatalError::ApiRejected { .. } => "endpoint rejected the request",
            FatalError::MissingOrInvalidField => "missing or invalid field",
            FatalError::StagingIoError { .. } => "staging failed",
        }
    }
}

} // verus!
