//! The canonical, vendor-agnostic request and response model.
//!
//! Sampling parameters that vendors take as small decimals (temperature,
//! top_p, the penalties) are carried in thousandths, so `temperature: 0.5`
//! is `Some(500)`; an adapter renders them as decimal text when it builds a
//! vendor body. Each is independently optional, and an unset parameter must
//! be entirely absent from any serialized vendor body.

use vstd::prelude::*;

verus! {

/// The speaker of one canonical message.
pub enum Role {
    User,
    Assistant,
}

/// One canonical message: a role tag plus content.
pub struct RequestMessage {
    pub role: Role,
    pub content: String,
}

/// One tool made available to the model.
pub struct ToolDefinition {
    pub name: String,
    pub description: String,
}

/// How the model is expected to use the supplied tools.
pub enum ToolChoice {
    /// The model may call a tool or answer directly.
    Auto,
    /// The model must call a tool; an adapter without tool support must
    /// refuse such a request rather than drop the requirement.
    Required,
}

/// The vendor-agnostic inference request. Built once per call by the caller,
/// read-only for an adapter. Numeric parameters, when present, were already
/// validated by the caller; an adapter only forwards or omits them.
pub struct CanonicalRequest {
    pub inference_id: String,
    pub messages: Vec<RequestMessage>,
    pub system: Option<String>,
    /// Sampling temperature, in thousandths.
    pub temperature: Option<i64>,
    /// Nucleus-sampling bound, in thousandths.
    pub top_p: Option<i64>,
    pub max_tokens: Option<u32>,
    pub seed: Option<u32>,
    /// Frequency penalty, in thousandths; may be negative.
    pub frequency_penalty: Option<i64>,
    /// Presence penalty, in thousandths; may be negative.
    pub presence_penalty: Option<i64>,
    pub stream: bool,
    pub tools: Option<Vec<ToolDefinition>>,
    pub tool_choice: Option<ToolChoice>,
}

impl CanonicalRequest {
    /// The request invariant: the message sequence is never empty.
    pub open spec fn well_formed(&self) -> bool {
        self.messages@.len() > 0
    }
}

/// The vendor-agnostic result of one successful inference call.
pub struct CanonicalResponse {
    /// The vendor's identifier for the completion.
    pub id: String,
    /// The generated content.
    pub content: String,
    /// The vendor's finish-reason tag.
    pub finish_reason: String,
    pub input_tokens: u32,
    pub output_tokens: u32,
    /// Wall-clock duration of the call, measured by the adapter's caller
    /// from just before send to just after the outcome was determined.
    pub latency_ms: u64,
}

} // verus!
