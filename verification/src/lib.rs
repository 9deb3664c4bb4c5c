//! Provider-adapter core of a multi-vendor LLM inference gateway.
//!
//! A canonical, vendor-agnostic inference request is translated into the wire
//! format of one vendor's HTTP API (Cohere is the worked adapter), the
//! credential for the call is resolved, and the vendor's response or failure
//! is normalized back into a canonical result under a single error taxonomy.
//! The network call itself is performed by the surrounding application; this
//! crate builds the request body, resolves the credential, and interprets
//! whatever came back.

pub mod canonical;
pub mod credential;
pub mod error;
pub mod json;
pub mod secret;
pub mod cohere;
