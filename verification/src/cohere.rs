//! The Cohere vendor adapter.
//!
//! Maps the canonical request onto Cohere's wire schema, resolves the
//! credential for a call, and normalizes the vendor's response or failure
//! into a canonical result. The network call itself is made by the
//! surrounding application; everything before and after it is verified here.

use vstd::prelude::*;
use vstd::string::StringExecFns;
use vstd::string::StrSliceExecFns;
use crate::canonical::{CanonicalRequest, CanonicalResponse, Role, ToolChoice};
use crate::credential::{Credential, DynamicCredentialTable, spec_lookup};
use crate::error::ErrorDetail;
use crate::json::{
    append_bool, append_escaped, append_millis, append_u64, bool_chars, dec_chars, json_escaped,
    match_lit, millis_chars, parse_string, parse_u32, push_char, sp_match, sp_parse_string,
    sp_parse_u32,
};
use crate::secret::{SecretKey, secret_chars};

verus! {

/// Cohere's safety-mode switch; not forwarded by this adapter.
pub enum CohereSafetyMode {
    CONTEXTUAL,
    OFF,
    STRICT,
}

/// Cohere's citation-quality switch; not forwarded by this adapter.
pub enum CohereCitationOptions {
    FAST,
    ACCURATE,
    OFF,
}

/// The adapter-local form of the shared credential configuration: how
/// this adapter's secret is supplied.
pub enum CohereCredentials {
    Static(SecretKey),
    Dynamic(String),
    Absent,
}

impl CohereCredentials {
    /// Maps the shared credential configuration onto this adapter's
    /// variants; the test-only `Missing` behaves like `Absent`.
    pub fn try_from(credentials: Credential) -> (r: Result<CohereCredentials, ErrorDetail>)
        ensures
            match credentials {
                Credential::Static(k) => r == Result::<CohereCredentials, ErrorDetail>::Ok(
                    CohereCredentials::Static(k),
                ),
                Credential::Dynamic(name) => r == Result::<CohereCredentials, ErrorDetail>::Ok(
                    CohereCredentials::Dynamic(name),
                ),
                Credential::Absent => r == Result::<CohereCredentials, ErrorDetail>::Ok(
                    CohereCredentials::Absent,
                ),
                Credential::Missing => r == Result::<CohereCredentials, ErrorDetail>::Ok(
                    CohereCredentials::Absent,
                ),
            },
    {
        match credentials {
            Credential::Static(key) => Ok(CohereCredentials::Static(key)),
            Credential::Dynamic(key_name) => Ok(CohereCredentials::Dynamic(key_name)),
            Credential::Absent => Ok(CohereCredentials::Absent),
            Credential::Missing => Ok(CohereCredentials::Absent),
        }
    }

    /// Resolves the secret to use for one call. `Static` always succeeds
    /// with the held secret; `Dynamic` looks its name up in the per-call
    /// table; `Absent` always fails, since Cohere requires authentication.
    /// The resolution is pure: it reads the table and nothing else.
    pub fn get_api_key<'a>(
        &'a self,
        dynamic_api_keys: &'a DynamicCredentialTable,
    ) -> (r: Result<&'a SecretKey, ErrorDetail>)
        ensures
            match *self {
                CohereCredentials::Static(k) => r matches Ok(s) && secret_chars(*s)
                    == secret_chars(k),
                CohereCredentials::Dynamic(name) => match spec_lookup(
                    dynamic_api_keys.entries@,
                    name@,
                ) {
                    Option::Some(chars) => r matches Ok(s) && secret_chars(*s) == chars,
                    Option::None => r matches Err(e) && e matches ErrorDetail::ApiKeyMissing {
                        provider_name,
                    } && provider_name@ == "Cohere"@,
                },
                CohereCredentials::Absent => r matches Err(e) && e
                    matches ErrorDetail::ApiKeyMissing { provider_name } && provider_name@
                    == "Cohere"@,
            },
    {
        match self {
            CohereCredentials::Static(api_key) => Ok(api_key),
            CohereCredentials::Dynamic(key_name) => match dynamic_api_keys.get(key_name) {
                Some(secret) => Ok(secret),
                None => Err(
                    ErrorDetail::ApiKeyMissing { provider_name: "Cohere".to_owned() },
                ),
            },
            CohereCredentials::Absent => Err(
                ErrorDetail::ApiKeyMissing { provider_name: "Cohere".to_owned() },
            ),
        }
    }
}

/// The Cohere adapter: a model name plus the credential configuration it
/// was deployed with.
pub struct CohereProvider {
    pub model_name: String,
    pub credentials: CohereCredentials,
}

impl CohereProvider {
    /// Builds the adapter from deployment configuration.
    pub fn new(model_name: String, credential: Credential) -> (r: Result<
        CohereProvider,
        ErrorDetail,
    >)
        ensures
            r matches Ok(p) && p.model_name == model_name && match credential {
                Credential::Static(k) => p.credentials == CohereCredentials::Static(k),
                Credential::Dynamic(name) => p.credentials == CohereCredentials::Dynamic(name),
                Credential::Absent => p.credentials == CohereCredentials::Absent,
                Credential::Missing => p.credentials == CohereCredentials::Absent,
            },
    {
        match CohereCredentials::try_from(credential) {
            Ok(credentials) => Ok(CohereProvider { model_name, credentials }),
            Err(e) => Err(e),
        }
    }
}

/// One message of the vendor body: a role tag plus content.
#[derive(Debug)]
pub struct CohereMessage {
    pub role: String,
    pub content: String,
}

/// The serialized shape of one message.
pub open spec fn message_chars(m: CohereMessage) -> Seq<char> {
    "{\"role\":\""@ + json_escaped(m.role@) + "\",\"content\":\""@ + json_escaped(m.content@)
        + "\"}"@
}

/// The serialized shape of every message after the first, each preceded by
/// a comma.
pub open spec fn rest_chars(ms: Seq<CohereMessage>) -> Seq<char>
    decreases ms.len(),
{
    if ms.len() == 0 {
        Seq::<char>::empty()
    } else {
        seq![','] + message_chars(ms[0]) + rest_chars(ms.drop_first())
    }
}

/// The serialized shape of a message sequence, comma-separated.
pub open spec fn messages_chars(ms: Seq<CohereMessage>) -> Seq<char> {
    if ms.len() == 0 {
        Seq::<char>::empty()
    } else {
        message_chars(ms[0]) + rest_chars(ms.drop_first())
    }
}

proof fn lemma_rest_chars_push(ms: Seq<CohereMessage>, m: CohereMessage)
    ensures
        rest_chars(ms.push(m)) == rest_chars(ms) + (seq![','] + message_chars(m)),
    decreases ms.len(),
{
    if ms.len() == 0 {
        assert(ms.push(m)[0] == m);
        assert(ms.push(m).drop_first() =~= Seq::<CohereMessage>::empty());
        assert(rest_chars(ms.push(m)) == seq![','] + message_chars(m) + rest_chars(
            Seq::<CohereMessage>::empty(),
        ));
        assert(rest_chars(ms.push(m)) =~= rest_chars(ms) + (seq![','] + message_chars(m)));
    } else {
        assert(ms.push(m)[0] == ms[0]);
        assert(ms.push(m).drop_first() =~= ms.drop_first().push(m));
        lemma_rest_chars_push(ms.drop_first(), m);
        assert(rest_chars(ms.push(m)) == seq![','] + message_chars(ms[0]) + (rest_chars(
            ms.drop_first(),
        ) + (seq![','] + message_chars(m))));
        assert(seq![','] + message_chars(ms[0]) + (rest_chars(ms.drop_first()) + (seq![',']
            + message_chars(m))) =~= (seq![','] + message_chars(ms[0]) + rest_chars(
            ms.drop_first(),
        )) + (seq![','] + message_chars(m)));
    }
}

fn append_message(out: &mut String, m: &CohereMessage)
    ensures
        final(out)@ == old(out)@ + message_chars(*m),
{
    out.append("{\"role\":\"");
    append_escaped(out, m.role.as_str());
    out.append("\",\"content\":\"");
    append_escaped(out, m.content.as_str());
    out.append("\"}");
    proof {
        assert(final(out)@ =~= old(out)@ + message_chars(*m));
    }
}

fn append_messages(out: &mut String, messages: &Vec<CohereMessage>)
    ensures
        final(out)@ == old(out)@ + messages_chars(messages@),
{
    let ghost prefix = old(out)@;
    let n = messages.len();
    if n > 0 {
        append_message(out, &messages[0]);
        let mut i: usize = 1;
        proof {
            assert(messages@.subrange(1, 1) =~= Seq::<CohereMessage>::empty());
            assert(out@ =~= prefix + message_chars(messages@[0]) + rest_chars(
                messages@.subrange(1, 1),
            ));
        }
        while i < n
            invariant
                1 <= i <= n,
                n == messages@.len(),
                prefix == old(out)@,
                out@ == prefix + message_chars(messages@[0]) + rest_chars(
                    messages@.subrange(1, i as int),
                ),
            decreases n - i,
        {
            push_char(out, ',');
            append_message(out, &messages[i]);
            proof {
                lemma_rest_chars_push(messages@.subrange(1, i as int), messages@[i as int]);
                assert(messages@.subrange(1, i as int).push(messages@[i as int])
                    =~= messages@.subrange(1, i as int + 1));
                assert(out@ =~= prefix + message_chars(messages@[0]) + rest_chars(
                    messages@.subrange(1, i as int + 1),
                ));
            }
            i = i + 1;
        }
        proof {
            assert(messages@.subrange(1, n as int) =~= messages@.drop_first());
            assert(out@ =~= prefix + messages_chars(messages@));
        }
    } else {
        proof {
            assert(out@ =~= prefix + messages_chars(messages@));
        }
    }
}

/// An optional numeric field: absent when unset, `key` then the decimal
/// value when set.
pub open spec fn opt_u32_field(key: Seq<char>, v: Option<u32>) -> Seq<char> {
    match v {
        Option::Some(n) => key + dec_chars(n as int),
        Option::None => Seq::<char>::empty(),
    }
}

/// An optional decimal field carried in thousandths: absent when unset,
/// `key` then the rendered decimal when set.
pub open spec fn opt_millis_field(key: Seq<char>, v: Option<i64>) -> Seq<char> {
    match v {
        Option::Some(n) => key + millis_chars(n as int),
        Option::None => Seq::<char>::empty(),
    }
}

/// The stream flag: absent when unset.
pub open spec fn stream_field(v: Option<bool>) -> Seq<char> {
    match v {
        Option::Some(b) => ",\"stream\":"@ + bool_chars(b),
        Option::None => Seq::<char>::empty(),
    }
}

/// Cohere's request body. Every optional field that is unset serializes to
/// nothing at all — never to null or a placeholder.
#[derive(Debug)]
pub struct CohereRequest {
    pub model: String,
    pub messages: Vec<CohereMessage>,
    pub stream: Option<bool>,
    pub max_tokens: Option<u32>,
    pub temperature: Option<i64>,
    pub seed: Option<u32>,
    pub frequency_penalty: Option<i64>,
    pub presence_penalty: Option<i64>,
    pub top_p: Option<i64>,
}

/// The serialized vendor body, character for character.
pub open spec fn spec_body(r: CohereRequest) -> Seq<char> {
    "{\"model\":\""@ + json_escaped(r.model@) + "\",\"messages\":["@ + messages_chars(r.messages@)
        + "]"@ + stream_field(r.stream) + opt_u32_field(",\"max_tokens\":"@, r.max_tokens)
        + opt_millis_field(",\"temperature\":"@, r.temperature) + opt_u32_field(
        ",\"seed\":"@,
        r.seed,
    ) + opt_millis_field(",\"frequency_penalty\":"@, r.frequency_penalty) + opt_millis_field(
        ",\"presence_penalty\":"@,
        r.presence_penalty,
    ) + opt_millis_field(",\"top_p\":"@, r.top_p) + "}"@
}

/// A message as its pair of views: role tag, then content.
pub open spec fn msg_view(m: CohereMessage) -> (Seq<char>, Seq<char>) {
    (m.role@, m.content@)
}

/// The vendor's role tag for a canonical role.
pub open spec fn role_chars(r: Role) -> Seq<char> {
    match r {
        Role::User => "user"@,
        Role::Assistant => "assistant"@,
    }
}

/// The vendor messages a canonical request maps to, as views: the system
/// prompt (when set) becomes a leading `system` message, then each
/// canonical message follows in order.
pub open spec fn spec_prepared_views(request: CanonicalRequest) -> Seq<(Seq<char>, Seq<char>)> {
    let tail = request.messages@.map_values(
        |m: crate::canonical::RequestMessage| (role_chars(m.role), m.content@),
    );
    match request.system {
        Option::Some(s) => seq![("system"@, s@)] + tail,
        Option::None => tail,
    }
}

impl CohereRequest {
    /// Maps the canonical request onto the vendor schema. An unset optional
    /// parameter stays entirely absent from the body. Tools are not yet
    /// supported by this adapter: it omits them when the request merely
    /// offers them, and refuses the request when it requires them.
    pub fn new(model: &str, request: &CanonicalRequest) -> (r: Result<CohereRequest, ErrorDetail>)
        ensures
            match r {
                Ok(body) => !(request.tool_choice matches Option::Some(ToolChoice::Required))
                    && body.model@ == model@ && body.messages@.map_values(
                    |m: CohereMessage| msg_view(m),
                ) == spec_prepared_views(*request) && body.stream == Option::Some(request.stream)
                    && body.max_tokens
                    == request.max_tokens && body.temperature == request.temperature && body.seed
                    == request.seed && body.frequency_penalty == request.frequency_penalty
                    && body.presence_penalty == request.presence_penalty && body.top_p
                    == request.top_p,
                Err(e) => (request.tool_choice matches Option::Some(ToolChoice::Required)) && (e
                    matches ErrorDetail::Config { message } && message@
                    == "tool use is required by the request but not supported by the Cohere provider"@),
            },
    {
        if let Some(ToolChoice::Required) = request.tool_choice {
            return Err(
                ErrorDetail::Config {
                    message:
                        "tool use is required by the request but not supported by the Cohere provider".to_owned(),
                },
            );
        }
        let messages = prepare_messages(request);
        Ok(
            CohereRequest {
                model: model.to_owned(),
                messages,
                stream: Some(request.stream),
                max_tokens: request.max_tokens,
                temperature: request.temperature,
                seed: request.seed,
                frequency_penalty: request.frequency_penalty,
                presence_penalty: request.presence_penalty,
                top_p: request.top_p,
            },
        )
    }

    /// Renders the body exactly as [`spec_body`] states it.
    #[verifier::rlimit(50)]
    pub fn body_string(&self) -> (r: String)
        ensures
            r@ == spec_body(*self),
    {
        let mut out = String::new();
        out.append("{\"model\":\"");
        append_escaped(&mut out, self.model.as_str());
        out.append("\",\"messages\":[");
        let ghost prefix = out@;
        proof {
            assert(prefix =~= "{\"model\":\""@ + json_escaped(self.model@)
                + "\",\"messages\":["@);
        }
        append_messages(&mut out, &self.messages);
        out.append("]");
        let ghost b0 = prefix + messages_chars(self.messages@) + "]"@;
        let ghost b1 = b0 + stream_field(self.stream);
        match self.stream {
            Some(b) => {
                out.append(",\"stream\":");
                append_bool(&mut out, b);
                proof {
                    assert(out@ =~= b1);
                }
            },
            None => {
                proof {
                    assert(out@ =~= b1);
                }
            },
        }
        let ghost b2 = b1 + opt_u32_field(",\"max_tokens\":"@, self.max_tokens);
        match self.max_tokens {
            Some(v) => {
                out.append(",\"max_tokens\":");
                append_u64(&mut out, v as u64);
                proof {
                    assert(out@ =~= b2);
                }
            },
            None => {
                proof {
                    assert(out@ =~= b2);
                }
            },
        }
        let ghost b3 = b2 + opt_millis_field(",\"temperature\":"@, self.temperature);
        match self.temperature {
            Some(v) => {
                out.append(",\"temperature\":");
                append_millis(&mut out, v);
                proof {
                    assert(out@ =~= b3);
                }
            },
            None => {
                proof {
                    assert(out@ =~= b3);
                }
            },
        }
        let ghost b4 = b3 + opt_u32_field(",\"seed\":"@, self.seed);
        match self.seed {
            Some(v) => {
                out.append(",\"seed\":");
                append_u64(&mut out, v as u64);
                proof {
                    assert(out@ =~= b4);
                }
            },
            None => {
                proof {
                    assert(out@ =~= b4);
                }
            },
        }
        let ghost b5 = b4 + opt_millis_field(",\"frequency_penalty\":"@, self.frequency_penalty);
        match self.frequency_penalty {
            Some(v) => {
                out.append(",\"frequency_penalty\":");
                append_millis(&mut out, v);
                proof {
                    assert(out@ =~= b5);
                }
            },
            None => {
                proof {
                    assert(out@ =~= b5);
                }
            },
        }
        let ghost b6 = b5 + opt_millis_field(",\"presence_penalty\":"@, self.presence_penalty);
        match self.presence_penalty {
            Some(v) => {
                out.append(",\"presence_penalty\":");
                append_millis(&mut out, v);
                proof {
                    assert(out@ =~= b6);
                }
            },
            None => {
                proof {
                    assert(out@ =~= b6);
                }
            },
        }
        let ghost b7 = b6 + opt_millis_field(",\"top_p\":"@, self.top_p);
        match self.top_p {
            Some(v) => {
                out.append(",\"top_p\":");
                append_millis(&mut out, v);
                proof {
                    assert(out@ =~= b7);
                }
            },
            None => {
                proof {
                    assert(out@ =~= b7);
                }
            },
        }
        out.append("}");
        proof {
            assert(out@ =~= spec_body(*self));
        }
        out
    }
}

/// The shared message-mapping helper: the system prompt (when set) becomes
/// a leading `system` message, then each canonical message follows in
/// order, `User` as `user` and `Assistant` as `assistant`.
pub fn prepare_messages(request: &CanonicalRequest) -> (r: Vec<CohereMessage>)
    ensures
        r@.map_values(|m: CohereMessage| msg_view(m)) == spec_prepared_views(*request),
{
    let mut out: Vec<CohereMessage> = Vec::new();
    match &request.system {
        Some(s) => {
            out.push(CohereMessage { role: "system".to_owned(), content: s.clone() });
        },
        None => {},
    }
    let ghost off: int = if request.system is Some {
        1int
    } else {
        0int
    };
    let ghost views = spec_prepared_views(*request);
    let n = request.messages.len();
    let mut i: usize = 0;
    while i < n
        invariant
            i <= n,
            n == request.messages@.len(),
            off == if request.system is Some {
                1int
            } else {
                0int
            },
            views == spec_prepared_views(*request),
            views.len() == n + off,
            out@.len() == i + off,
            forall|k: int| 0 <= k < out@.len() ==> msg_view(#[trigger] out@[k]) == views[k],
        decreases n - i,
    {
        let role = match request.messages[i].role {
            Role::User => "user".to_owned(),
            Role::Assistant => "assistant".to_owned(),
        };
        out.push(CohereMessage { role, content: request.messages[i].content.clone() });
        proof {
            assert(views[i + off] == (
                role_chars(request.messages@[i as int].role),
                request.messages@[i as int].content@,
            ));
        }
        i = i + 1;
    }
    proof {
        assert(out@.map_values(|m: CohereMessage| msg_view(m)) =~= views);
    }
    out
}

/// One generation of Cohere's response schema.
pub struct CohereGenerationData {
    pub id: String,
    pub text: String,
    pub finish_reason: String,
    pub tokens: Option<u32>,
}

/// Cohere's response schema, flattened: the metadata object's fields sit
/// beside the top-level ones.
pub struct CohereResponseData {
    pub id: String,
    pub generations: Vec<CohereGenerationData>,
    pub message: String,
    pub api_version: String,
    pub input_tokens: u32,
    pub output_tokens: u32,
}

/// One parsed generation, as views.
pub struct GenView {
    pub id: Seq<char>,
    pub text: Seq<char>,
    pub finish_reason: Seq<char>,
    pub tokens: Option<u32>,
}

/// A parsed response, as views.
pub struct RespView {
    pub id: Seq<char>,
    pub generations: Seq<GenView>,
    pub message: Seq<char>,
    pub api_version: Seq<char>,
    pub input_tokens: u32,
    pub output_tokens: u32,
}

pub open spec fn gen_view(g: CohereGenerationData) -> GenView {
    GenView { id: g.id@, text: g.text@, finish_reason: g.finish_reason@, tokens: g.tokens }
}

pub open spec fn resp_view(d: CohereResponseData) -> RespView {
    RespView {
        id: d.id@,
        generations: d.generations@.map_values(|g: CohereGenerationData| gen_view(g)),
        message: d.message@,
        api_version: d.api_version@,
        input_tokens: d.input_tokens,
        output_tokens: d.output_tokens,
    }
}

/// One generation object of the vendor grammar: `id`, `text` and
/// `finish_reason` strings, then an optional `tokens` count.
pub open spec fn sp_parse_generation(s: Seq<char>, i: int) -> Option<(GenView, int)> {
    match sp_match(s, i, "{\"id\":"@, 0) {
        Option::Some(j1) => match sp_parse_string(s, j1) {
            Option::Some((idv, j2)) => match sp_match(s, j2, ",\"text\":"@, 0) {
                Option::Some(j3) => match sp_parse_string(s, j3) {
                    Option::Some((textv, j4)) => match sp_match(s, j4, ",\"finish_reason\":"@, 0) {
                        Option::Some(j5) => match sp_parse_string(s, j5) {
                            Option::Some((frv, j6)) => match sp_match(s, j6, ",\"tokens\":"@, 0) {
                                Option::Some(j7) => match sp_parse_u32(s, j7) {
                                    Option::Some((tok, j8)) => match sp_match(s, j8, "}"@, 0) {
                                        Option::Some(j9) => Option::Some(
                                            (
                                                GenView {
                                                    id: idv,
                                                    text: textv,
                                                    finish_reason: frv,
                                                    tokens: Option::Some(tok),
                                                },
                                                j9,
                                            ),
                                        ),
                                        Option::None => Option::None,
                                    },
                                    Option::None => Option::None,
                                },
                                Option::None => match sp_match(s, j6, "}"@, 0) {
                                    Option::Some(j7) => Option::Some(
                                        (
                                            GenView {
                                                id: idv,
                                                text: textv,
                                                finish_reason: frv,
                                                tokens: Option::None,
                                            },
                                            j7,
                                        ),
                                    ),
                                    Option::None => Option::None,
                                },
                            },
                            Option::None => Option::None,
                        },
                        Option::None => Option::None,
                    },
                    Option::None => Option::None,
                },
                Option::None => Option::None,
            },
            Option::None => Option::None,
        },
        Option::None => Option::None,
    }
}

fn parse_generation(s: &str, i: usize) -> (r: Option<(CohereGenerationData, usize)>)
    requires
        i <= s@.len(),
    ensures
        match r {
            Option::Some((g, j)) => sp_parse_generation(s@, i as int) == Option::Some(
                (gen_view(g), j as int),
            ) && i <= j <= s@.len(),
            Option::None => sp_parse_generation(s@, i as int) is None,
        },
{
    let j1 = match match_lit(s, i, "{\"id\":") {
        Some(j) => j,
        None => {
            return None;
        },
    };
    let (idv, j2) = match parse_string(s, j1) {
        Some(p) => p,
        None => {
            return None;
        },
    };
    let j3 = match match_lit(s, j2, ",\"text\":") {
        Some(j) => j,
        None => {
            return None;
        },
    };
    let (textv, j4) = match parse_string(s, j3) {
        Some(p) => p,
        None => {
            return None;
        },
    };
    let j5 = match match_lit(s, j4, ",\"finish_reason\":") {
        Some(j) => j,
        None => {
            return None;
        },
    };
    let (frv, j6) = match parse_string(s, j5) {
        Some(p) => p,
        None => {
            return None;
        },
    };
    match match_lit(s, j6, ",\"tokens\":") {
        Some(j7) => {
            let (tok, j8) = match parse_u32(s, j7) {
                Some(p) => p,
                None => {
                    return None;
                },
            };
            let j9 = match match_lit(s, j8, "}") {
                Some(j) => j,
                None => {
                    return None;
                },
            };
            Some(
                (
                    CohereGenerationData {
                        id: idv,
                        text: textv,
                        finish_reason: frv,
                        tokens: Some(tok),
                    },
                    j9,
                ),
            )
        },
        None => {
            let j7 = match match_lit(s, j6, "}") {
                Some(j) => j,
                None => {
                    return None;
                },
            };
            Some(
                (
                    CohereGenerationData { id: idv, text: textv, finish_reason: frv, tokens: None },
                    j7,
                ),
            )
        },
    }
}

/// The elements of a generation array after its first: each a comma then a
/// generation, until the closing bracket. `fuel` bounds the recursion; the
/// grammar supplies the input length, which no element count can pass.
pub open spec fn sp_gen_tail(s: Seq<char>, i: int, fuel: nat) -> Option<(Seq<GenView>, int)>
    decreases fuel,
{
    if !(0 <= i < s.len()) {
        Option::None
    } else if s[i] == ']' {
        Option::Some((Seq::<GenView>::empty(), i + 1))
    } else if s[i] == ',' && fuel > 0 {
        match sp_parse_generation(s, i + 1) {
            Option::Some((g, j)) => match sp_gen_tail(s, j, (fuel - 1) as nat) {
                Option::Some((rest, k)) => Option::Some((seq![g] + rest, k)),
                Option::None => Option::None,
            },
            Option::None => Option::None,
        }
    } else {
        Option::None
    }
}

/// A generation array: `[]`, or `[` then comma-separated generations `]`.
pub open spec fn sp_parse_generations(s: Seq<char>, i: int) -> Option<(Seq<GenView>, int)> {
    if 0 <= i < s.len() && s[i] == '[' {
        if i + 1 < s.len() && s[i + 1] == ']' {
            Option::Some((Seq::<GenView>::empty(), i + 2))
        } else {
            match sp_parse_generation(s, i + 1) {
                Option::Some((g, j)) => match sp_gen_tail(s, j, s.len() as nat) {
                    Option::Some((rest, k)) => Option::Some((seq![g] + rest, k)),
                    Option::None => Option::None,
                },
                Option::None => Option::None,
            }
        }
    } else {
        Option::None
    }
}

fn gen_tail(s: &str, i: usize, fuel: usize) -> (r: Option<(Vec<CohereGenerationData>, usize)>)
    requires
        i <= s@.len(),
    ensures
        match r {
            Option::Some((v, j)) => sp_gen_tail(s@, i as int, fuel as nat) == Option::Some(
                (v@.map_values(|g: CohereGenerationData| gen_view(g)), j as int),
            ) && i <= j <= s@.len(),
            Option::None => sp_gen_tail(s@, i as int, fuel as nat) is None,
        },
    decreases fuel,
{
    if i == s.unicode_len() {
        return None;
    }
    let c = s.get_char(i);
    if c == ']' {
        let v: Vec<CohereGenerationData> = Vec::new();
        proof {
            assert(v@.map_values(|g: CohereGenerationData| gen_view(g))
                =~= Seq::<GenView>::empty());
        }
        Some((v, i + 1))
    } else if c == ',' && fuel > 0 {
        match parse_generation(s, i + 1) {
            Some((g, j)) => match gen_tail(s, j, fuel - 1) {
                Some((v, k)) => {
                    let ghost restm = v@.map_values(|g2: CohereGenerationData| gen_view(g2));
                    let mut v2 = v;
                    v2.insert(0, g);
                    proof {
                        assert(v2@.map_values(|g2: CohereGenerationData| gen_view(g2))
                            =~= seq![gen_view(g)] + restm);
                    }
                    Some((v2, k))
                },
                None => None,
            },
            None => None,
        }
    } else {
        None
    }
}

/// Reads a generation array at position `i` of `s`.
pub fn parse_generations(s: &str, i: usize) -> (r: Option<(Vec<CohereGenerationData>, usize)>)
    requires
        i <= s@.len(),
    ensures
        match r {
            Option::Some((v, j)) => sp_parse_generations(s@, i as int) == Option::Some(
                (v@.map_values(|g: CohereGenerationData| gen_view(g)), j as int),
            ) && i <= j <= s@.len(),
            Option::None => sp_parse_generations(s@, i as int) is None,
        },
{
    if i == s.unicode_len() {
        return None;
    }
    if s.get_char(i) != '[' {
        return None;
    }
    if i + 1 < s.unicode_len() && s.get_char(i + 1) == ']' {
        let v: Vec<CohereGenerationData> = Vec::new();
        proof {
            assert(v@.map_values(|g: CohereGenerationData| gen_view(g))
                =~= Seq::<GenView>::empty());
        }
        return Some((v, i + 2));
    }
    match parse_generation(s, i + 1) {
        Some((g, j)) => match gen_tail(s, j, s.unicode_len()) {
            Some((v, k)) => {
                let ghost restm = v@.map_values(|g2: CohereGenerationData| gen_view(g2));
                let mut v2 = v;
                v2.insert(0, g);
                proof {
                    assert(v2@.map_values(|g2: CohereGenerationData| gen_view(g2))
                        =~= seq![gen_view(g)] + restm);
                }
                Some((v2, k))
            },
            None => None,
        },
        None => None,
    }
}

/// The metadata object of the vendor grammar: an `api_version` string and
/// the two token counts.
pub open spec fn sp_parse_meta(s: Seq<char>, i: int) -> Option<((Seq<char>, u32, u32), int)> {
    match sp_match(s, i, "{\"api_version\":"@, 0) {
        Option::Some(j1) => match sp_parse_string(s, j1) {
            Option::Some((av, j2)) => match sp_match(s, j2, ",\"input_tokens\":"@, 0) {
                Option::Some(j3) => match sp_parse_u32(s, j3) {
                    Option::Some((it, j4)) => match sp_match(s, j4, ",\"output_tokens\":"@, 0) {
                        Option::Some(j5) => match sp_parse_u32(s, j5) {
                            Option::Some((ot, j6)) => match sp_match(s, j6, "}"@, 0) {
                                Option::Some(j7) => Option::Some(((av, it, ot), j7)),
                                Option::None => Option::None,
                            },
                            Option::None => Option::None,
                        },
                        Option::None => Option::None,
                    },
                    Option::None => Option::None,
                },
                Option::None => Option::None,
            },
            Option::None => Option::None,
        },
        Option::None => Option::None,
    }
}

fn parse_meta(s: &str, i: usize) -> (r: Option<((String, u32, u32), usize)>)
    requires
        i <= s@.len(),
    ensures
        match r {
            Option::Some(((av, it, ot), j)) => sp_parse_meta(s@, i as int) == Option::Some(
                ((av@, it, ot), j as int),
            ) && i <= j <= s@.len(),
            Option::None => sp_parse_meta(s@, i as int) is None,
        },
{
    let j1 = match match_lit(s, i, "{\"api_version\":") {
        Some(j) => j,
        None => {
            return None;
        },
    };
    let (av, j2) = match parse_string(s, j1) {
        Some(p) => p,
        None => {
            return None;
        },
    };
    let j3 = match match_lit(s, j2, ",\"input_tokens\":") {
        Some(j) => j,
        None => {
            return None;
        },
    };
    let (it, j4) = match parse_u32(s, j3) {
        Some(p) => p,
        None => {
            return None;
        },
    };
    let j5 = match match_lit(s, j4, ",\"output_tokens\":") {
        Some(j) => j,
        None => {
            return None;
        },
    };
    let (ot, j6) = match parse_u32(s, j5) {
        Some(p) => p,
        None => {
            return None;
        },
    };
    let j7 = match match_lit(s, j6, "}") {
        Some(j) => j,
        None => {
            return None;
        },
    };
    Some(((av, it, ot), j7))
}

/// The vendor response grammar, whole: the compact encoding of an object
/// holding `id`, `generations`, `message` and `metadata`, with nothing
/// after it.
pub open spec fn sp_parse_response(s: Seq<char>) -> Option<RespView> {
    match sp_match(s, 0, "{\"id\":"@, 0) {
        Option::Some(j1) => match sp_parse_string(s, j1) {
            Option::Some((idv, j2)) => match sp_match(s, j2, ",\"generations\":"@, 0) {
                Option::Some(j3) => match sp_parse_generations(s, j3) {
                    Option::Some((gens, j4)) => match sp_match(s, j4, ",\"message\":"@, 0) {
                        Option::Some(j5) => match sp_parse_string(s, j5) {
                            Option::Some((msgv, j6)) => match sp_match(s, j6, ",\"metadata\":"@, 0) {
                                Option::Some(j7) => match sp_parse_meta(s, j7) {
                                    Option::Some(((av, it, ot), j8)) => match sp_match(
                                        s,
                                        j8,
                                        "}"@,
                                        0,
                                    ) {
                                        Option::Some(j9) => if j9 == s.len() {
                                            Option::Some(
                                                RespView {
                                                    id: idv,
                                                    generations: gens,
                                                    message: msgv,
                                                    api_version: av,
                                                    input_tokens: it,
                                                    output_tokens: ot,
                                                },
                                            )
                                        } else {
                                            Option::None
                                        },
                                        Option::None => Option::None,
                                    },
                                    Option::None => Option::None,
                                },
                                Option::None => Option::None,
                            },
                            Option::None => Option::None,
                        },
                        Option::None => Option::None,
                    },
                    Option::None => Option::None,
                },
                Option::None => Option::None,
            },
            Option::None => Option::None,
        },
        Option::None => Option::None,
    }
}

/// Reads a whole vendor response body against the grammar
/// [`sp_parse_response`] states.
pub fn parse_response(s: &str) -> (r: Option<CohereResponseData>)
    ensures
        match r {
            Option::Some(d) => sp_parse_response(s@) == Option::Some(resp_view(d)),
            Option::None => sp_parse_response(s@) is None,
        },
{
    let j1 = match match_lit(s, 0, "{\"id\":") {
        Some(j) => j,
        None => {
            return None;
        },
    };
    let (idv, j2) = match parse_string(s, j1) {
        Some(p) => p,
        None => {
            return None;
        },
    };
    let j3 = match match_lit(s, j2, ",\"generations\":") {
        Some(j) => j,
        None => {
            return None;
        },
    };
    let (gens, j4) = match parse_generations(s, j3) {
        Some(p) => p,
        None => {
            return None;
        },
    };
    let j5 = match match_lit(s, j4, ",\"message\":") {
        Some(j) => j,
        None => {
            return None;
        },
    };
    let (msgv, j6) = match parse_string(s, j5) {
        Some(p) => p,
        None => {
            return None;
        },
    };
    let j7 = match match_lit(s, j6, ",\"metadata\":") {
        Some(j) => j,
        None => {
            return None;
        },
    };
    let ((av, it, ot), j8) = match parse_meta(s, j7) {
        Some(p) => p,
        None => {
            return None;
        },
    };
    let j9 = match match_lit(s, j8, "}") {
        Some(j) => j,
        None => {
            return None;
        },
    };
    if j9 != s.unicode_len() {
        return None;
    }
    Some(
        CohereResponseData {
            id: idv,
            generations: gens,
            message: msgv,
            api_version: av,
            input_tokens: it,
            output_tokens: ot,
        },
    )
}

/// What one network attempt came to: either no response was received, or a
/// status arrived with a body that could (or could not) be read as text.
pub enum HttpOutcome {
    /// The request never reached a server response.
    TransportFailure { message: String, status_code: Option<u16> },
    /// A response arrived; `body` is its text, or nothing if reading the
    /// body failed.
    Response { status: u16, body: Option<String> },
}

/// Whether a status is a success.
pub open spec fn is_success_status(status: u16) -> bool {
    200 <= status < 300
}

/// The canonical content a parsed response maps to: the first generation's
/// text, or nothing at all when the vendor sent no generation.
pub open spec fn first_text(v: RespView) -> Seq<char> {
    if v.generations.len() > 0 {
        v.generations[0].text
    } else {
        Seq::<char>::empty()
    }
}

/// The canonical finish reason a parsed response maps to.
pub open spec fn first_finish_reason(v: RespView) -> Seq<char> {
    if v.generations.len() > 0 {
        v.generations[0].finish_reason
    } else {
        Seq::<char>::empty()
    }
}

/// Normalizes one network outcome, terminal on first exit: a transport
/// failure is an `InferenceClient` error; a non-success status is always an
/// `InferenceServer` error carrying the literal body text (or an empty
/// placeholder when it could not be read); a success status yields the
/// parsed canonical response, or an `InferenceServer` error carrying the
/// literal body text when the body does not parse.
pub fn interpret_outcome(raw_request: &String, outcome: HttpOutcome, latency_ms: u64) -> (r:
    Result<CanonicalResponse, ErrorDetail>)
    ensures
        match outcome {
            HttpOutcome::TransportFailure { message, status_code } => r matches Err(e) && (e
                matches ErrorDetail::InferenceClient {
                message: m,
                status_code: sc,
                raw_request: rq,
                raw_response: rr,
                provider_type: pt,
            } && m@ == "error sending request to Cohere: "@ + message@ && sc == status_code && (rq
                matches Option::Some(q) && q@ == raw_request@) && rr is None && pt@ == "cohere"@),
            HttpOutcome::Response { status, body } => if !is_success_status(status) {
                r matches Err(e) && (e matches ErrorDetail::InferenceServer {
                    message: m,
                    status_code: sc,
                    raw_request: rq,
                    raw_response: rr,
                    provider_type: pt,
                } && m@ == "Cohere returned a non-success status"@ && sc == Option::Some(status)
                    && (rq matches Option::Some(q) && q@ == raw_request@) && (rr
                    matches Option::Some(t) && t@ == (match body {
                    Option::Some(b) => b@,
                    Option::None => Seq::<char>::empty(),
                })) && pt@ == "cohere"@)
            } else {
                match body {
                    Option::None => r matches Err(e) && (e matches ErrorDetail::InferenceServer {
                        message: m,
                        status_code: sc,
                        raw_request: rq,
                        raw_response: rr,
                        provider_type: pt,
                    } && m@ == "error reading text response from Cohere"@ && sc == Option::Some(
                        status,
                    ) && (rq matches Option::Some(q) && q@ == raw_request@) && rr is None && pt@
                        == "cohere"@),
                    Option::Some(t) => match sp_parse_response(t@) {
                        Option::None => r matches Err(e) && (e
                            matches ErrorDetail::InferenceServer {
                            message: m,
                            status_code: sc,
                            raw_request: rq,
                            raw_response: rr,
                            provider_type: pt,
                        } && m@
                            == "error parsing JSON response from Cohere: the body does not match the response schema"@
                            && sc == Option::Some(status) && (rq matches Option::Some(q) && q@
                            == raw_request@) && (rr matches Option::Some(t2) && t2@ == t@) && pt@
                            == "cohere"@),
                        Option::Some(v) => r matches Ok(resp) && resp.id@ == v.id && resp.content@
                            == first_text(v) && resp.finish_reason@ == first_finish_reason(v)
                            && resp.input_tokens == v.input_tokens && resp.output_tokens
                            == v.output_tokens && resp.latency_ms == latency_ms,
                    },
                }
            },
        },
{
    match outcome {
        HttpOutcome::TransportFailure { message, status_code } => {
            let mut m = "error sending request to Cohere: ".to_owned();
            m.append(message.as_str());
            Err(
                ErrorDetail::InferenceClient {
                    message: m,
                    status_code,
                    raw_request: Some(raw_request.clone()),
                    raw_response: None,
                    provider_type: "cohere".to_owned(),
                },
            )
        },
        HttpOutcome::Response { status, body } => {
            if !(200 <= status && status < 300) {
                let text = match body {
                    Some(b) => b,
                    None => String::new(),
                };
                Err(
                    ErrorDetail::InferenceServer {
                        message: "Cohere returned a non-success status".to_owned(),
                        status_code: Some(status),
                        raw_request: Some(raw_request.clone()),
                        raw_response: Some(text),
                        provider_type: "cohere".to_owned(),
                    },
                )
            } else {
                match body {
                    None => Err(
                        ErrorDetail::InferenceServer {
                            message: "error reading text response from Cohere".to_owned(),
                            status_code: Some(status),
                            raw_request: Some(raw_request.clone()),
                            raw_response: None,
                            provider_type: "cohere".to_owned(),
                        },
                    ),
                    Some(t) => match parse_response(t.as_str()) {
                        None => Err(
                            ErrorDetail::InferenceServer {
                                message:
                                    "error parsing JSON response from Cohere: the body does not match the response schema".to_owned(),
                                status_code: Some(status),
                                raw_request: Some(raw_request.clone()),
                                raw_response: Some(t),
                                provider_type: "cohere".to_owned(),
                            },
                        ),
                        Some(d) => {
                            let (content, finish_reason) = if d.generations.len() > 0 {
                                (
                                    d.generations[0].text.clone(),
                                    d.generations[0].finish_reason.clone(),
                                )
                            } else {
                                (String::new(), String::new())
                            };
                            Ok(
                                CanonicalResponse {
                                    id: d.id,
                                    content,
                                    finish_reason,
                                    input_tokens: d.input_tokens,
                                    output_tokens: d.output_tokens,
                                    latency_ms,
                                },
                            )
                        },
                    },
                }
            }
        },
    }
}

/// Law: an optional parameter that is unset contributes nothing to the
/// serialized vendor body — its fragment of [`spec_body`] is the empty
/// sequence, so the body is exactly the concatenation of the remaining
/// fragments. One that is set contributes exactly its key and rendered
/// value. The field is therefore absent when unset, never null and never a
/// placeholder.
pub proof fn lemma_unset_params_omitted(r: CohereRequest)
    ensures
        r.stream is None ==> stream_field(r.stream) == Seq::<char>::empty(),
        r.max_tokens is None ==> opt_u32_field(",\"max_tokens\":"@, r.max_tokens)
            == Seq::<char>::empty(),
        r.temperature is None ==> opt_millis_field(",\"temperature\":"@, r.temperature)
            == Seq::<char>::empty(),
        r.seed is None ==> opt_u32_field(",\"seed\":"@, r.seed) == Seq::<char>::empty(),
        r.frequency_penalty is None ==> opt_millis_field(
            ",\"frequency_penalty\":"@,
            r.frequency_penalty,
        ) == Seq::<char>::empty(),
        r.presence_penalty is None ==> opt_millis_field(
            ",\"presence_penalty\":"@,
            r.presence_penalty,
        ) == Seq::<char>::empty(),
        r.top_p is None ==> opt_millis_field(",\"top_p\":"@, r.top_p) == Seq::<char>::empty(),
        r.stream matches Option::Some(b) ==> stream_field(r.stream) == ",\"stream\":"@
            + bool_chars(b),
        r.max_tokens matches Option::Some(v) ==> opt_u32_field(",\"max_tokens\":"@, r.max_tokens)
            == ",\"max_tokens\":"@ + dec_chars(v as int),
        r.temperature matches Option::Some(v) ==> opt_millis_field(
            ",\"temperature\":"@,
            r.temperature,
        ) == ",\"temperature\":"@ + millis_chars(v as int),
        r.seed matches Option::Some(v) ==> opt_u32_field(",\"seed\":"@, r.seed) == ",\"seed\":"@
            + dec_chars(v as int),
        r.frequency_penalty matches Option::Some(v) ==> opt_millis_field(
            ",\"frequency_penalty\":"@,
            r.frequency_penalty,
        ) == ",\"frequency_penalty\":"@ + millis_chars(v as int),
        r.presence_penalty matches Option::Some(v) ==> opt_millis_field(
            ",\"presence_penalty\":"@,
            r.presence_penalty,
        ) == ",\"presence_penalty\":"@ + millis_chars(v as int),
        r.top_p matches Option::Some(v) ==> opt_millis_field(",\"top_p\":"@, r.top_p)
            == ",\"top_p\":"@ + millis_chars(v as int),
{
}

/// Law: when every optional sampling parameter is unset, the serialized
/// body holds the model, the messages and the stream flag and nothing
/// else — none of the unset fields appears in it in any form.
pub proof fn lemma_minimal_body(r: CohereRequest)
    requires
        r.max_tokens is None,
        r.temperature is None,
        r.seed is None,
        r.frequency_penalty is None,
        r.presence_penalty is None,
        r.top_p is None,
    ensures
        spec_body(r) == "{\"model\":\""@ + json_escaped(r.model@) + "\",\"messages\":["@
            + messages_chars(r.messages@) + "]"@ + stream_field(r.stream) + "}"@,
{
    assert(spec_body(r) =~= "{\"model\":\""@ + json_escaped(r.model@) + "\",\"messages\":["@
        + messages_chars(r.messages@) + "]"@ + stream_field(r.stream) + "}"@);
}

} // verus!
