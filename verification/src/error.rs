//! The error taxonomy shared by every vendor adapter.
//!
//! Every failure path of an adapter returns one of these variants; none are
//! logged-and-swallowed and none panic. `status_code` and `provider_type`
//! carry enough for an external retry/fallback policy to decide without
//! inspecting adapter internals.

use vstd::prelude::*;

verus! {

/// A typed inference failure, constructed at the point of failure and
/// propagated to the caller unchanged.
#[derive(Debug)]
pub enum ErrorDetail {
    /// Misconfigured credential routing, or a capability the canonical
    /// request requires that the adapter cannot honor.
    Config { message: String },
    /// The credential could not be resolved; no network call was made.
    ApiKeyMissing { provider_name: String },
    /// The request never reached a server response (transport failure).
    InferenceClient {
        message: String,
        status_code: Option<u16>,
        raw_request: Option<String>,
        raw_response: Option<String>,
        provider_type: String,
    },
    /// A response was received but carried a non-success status, or a body
    /// that could not be read or parsed.
    InferenceServer {
        message: String,
        status_code: Option<u16>,
        raw_request: Option<String>,
        raw_response: Option<String>,
        provider_type: String,
    },
}

} // verus!
