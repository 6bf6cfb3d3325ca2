//! Caller-facing error vocabulary and the translation of internal failures
//! into it.
//!
//! Callers always receive a structured error with a stable numeric code and
//! message; internal diagnostic detail is never passed through. A well-formed
//! error returned by a backend the tunnel service consulted is preserved
//! verbatim; every other failure collapses into `Internal`.

use vstd::prelude::*;

verus! {

/// Wire code of an error for a request that may not be made (for example a
/// privileged call without prior authentication).
pub const INVALID_REQUEST_CODE: i64 = -32600;

/// Wire code of an error for invalid call parameters (for example an unknown
/// subscription identifier).
pub const INVALID_PARAMS_CODE: i64 = -32602;

/// Wire code of an internal error.
pub const INTERNAL_ERROR_CODE: i64 = -32603;

/// Everything a call into the management interface can fail with.
#[derive(Clone, PartialEq, Eq, Debug)]
pub enum ApiError {
    /// A privileged call was made without a prior successful `auth`.
    Unauthenticated,
    /// `unsubscribe` was called with an identifier that is not live.
    InvalidSubscription,
    /// The command channel towards the tunnel service is gone, or a delivery
    /// slot was abandoned before it was fulfilled.
    ChannelClosed,
    /// A well-formed error returned by a backend the tunnel service consulted
    /// on the caller's behalf; code, message and payload pass through
    /// verbatim.
    UpstreamRemote { code: i64, message: String, data: Option<String> },
    /// Catch-all for any other failure; carries no internal detail.
    Internal,
}

/// A failure of a downstream call made by the tunnel service on the caller's
/// behalf, as the gateway reads it: either a well-formed remote-call error
/// with its code, message and payload, or anything else.
#[derive(Clone, PartialEq, Eq, Debug)]
pub enum UpstreamError {
    /// The downstream call itself answered with a structured error.
    Remote { code: i64, message: String, data: Option<String> },
    /// Transport breakdown, malformed answer, or any other failure kind.
    Other,
}

impl ApiError {
    /// The stable numeric code shown to the caller.
    pub open spec fn spec_wire_code(&self) -> i64 {
        match self {
            ApiError::Unauthenticated => INVALID_REQUEST_CODE,
            ApiError::InvalidSubscription => INVALID_PARAMS_CODE,
            ApiError::ChannelClosed => INTERNAL_ERROR_CODE,
            ApiError::UpstreamRemote { code, .. } => *code,
            ApiError::Internal => INTERNAL_ERROR_CODE,
        }
    }

    /// The stable message shown to the caller.
    pub open spec fn spec_wire_message(&self) -> Seq<char> {
        match self {
            ApiError::Unauthenticated => "Invalid request"@,
            ApiError::InvalidSubscription => "Invalid subscription"@,
            ApiError::ChannelClosed => "Internal error"@,
            ApiError::UpstreamRemote { message, .. } => message@,
            ApiError::Internal => "Internal error"@,
        }
    }

    /// Numeric code of this error on the wire.
    pub fn wire_code(&self) -> (code: i64)
        ensures
            code == self.spec_wire_code(),
    {
        match self {
            ApiError::Unauthenticated => INVALID_REQUEST_CODE,
            ApiError::InvalidSubscription => INVALID_PARAMS_CODE,
            ApiError::ChannelClosed => INTERNAL_ERROR_CODE,
            ApiError::UpstreamRemote { code, .. } => *code,
            ApiError::Internal => INTERNAL_ERROR_CODE,
        }
    }

    /// Message of this error on the wire.
    pub fn wire_message(&self) -> (message: String)
        ensures
            message@ == self.spec_wire_message(),
    {
        match self {
            ApiError::Unauthenticated => String::from_str("Invalid request"),
            ApiError::InvalidSubscription => String::from_str("Invalid subscription"),
            ApiError::ChannelClosed => String::from_str("Internal error"),
            ApiError::UpstreamRemote { message, .. } => message.clone(),
            ApiError::Internal => String::from_str("Internal error"),
        }
    }
}

/// What translating an upstream failure must yield: a well-formed remote-call
/// error passes through verbatim, anything else becomes `Internal`.
pub open spec fn spec_map_rpc_error(error: UpstreamError) -> ApiError {
    match error {
        UpstreamError::Remote { code, message, data } => ApiError::UpstreamRemote {
            code,
            message,
            data,
        },
        UpstreamError::Other => ApiError::Internal,
    }
}

/// Converts a failure of a downstream call into the error given to the caller
/// of the API: a well-formed remote-call error is passed through as is, any
/// other failure is changed to an internal error.
pub fn map_rpc_error(error: UpstreamError) -> (mapped: ApiError)
    ensures
        mapped == spec_map_rpc_error(error),
{
    match error {
        UpstreamError::Remote { code, message, data } => ApiError::UpstreamRemote {
            code,
            message,
            data,
        },
        UpstreamError::Other => ApiError::Internal,
    }
}

} // verus!
