use cohere_adapter::canonical::{CanonicalRequest, RequestMessage, Role, ToolChoice};
use cohere_adapter::cohere::{
    interpret_outcome, CohereCredentials, CohereProvider, CohereRequest, HttpOutcome,
};
use cohere_adapter::credential::{Credential, DynamicCredentialTable};
use cohere_adapter::error::ErrorDetail;
use cohere_adapter::secret::SecretKey;

fn simple_request(temperature: Option<i64>) -> CanonicalRequest {
    CanonicalRequest {
        inference_id: "req-1".to_string(),
        messages: vec![RequestMessage {
            role: Role::User,
            content: "hi".to_string(),
        }],
        system: None,
        temperature,
        top_p: None,
        max_tokens: None,
        seed: None,
        frequency_penalty: None,
        presence_penalty: None,
        stream: false,
        tools: None,
        tool_choice: None,
    }
}

#[test]
fn text_cohere_equest_new() {
    let request = CanonicalRequest {
        inference_id: "00000000-0000-7000-8000-000000000000".to_string(),
        messages: vec![RequestMessage {
            role: Role::User,
            content: "What's the weather like?".to_string(),
        }],
        system: None,
        temperature: Some(500),
        top_p: None,
        frequency_penalty: None,
        presence_penalty: None,
        max_tokens: None,
        seed: None,
        stream: false,
        tools: None,
        tool_choice: None,
    };
    assert!(CohereRequest::new("command", &request).is_ok());
}

#[test]
fn body_omits_unset_params() {
    let request = simple_request(None);
    let body = CohereRequest::new("command", &request).unwrap().body_string();
    assert_eq!(
        body,
        "{\"model\":\"command\",\"messages\":[{\"role\":\"user\",\"content\":\"hi\"}],\"stream\":false}"
    );
    assert!(!body.contains("temperature"));
    assert!(!body.contains("top_p"));
    assert!(!body.contains("max_tokens"));
    assert!(!body.contains("seed"));
    assert!(!body.contains("frequency_penalty"));
    assert!(!body.contains("presence_penalty"));
    assert!(!body.contains("null"));
}

#[test]
fn body_renders_set_params() {
    let mut request = simple_request(Some(500));
    request.top_p = Some(950);
    request.max_tokens = Some(100);
    request.seed = Some(69);
    request.frequency_penalty = Some(-1250);
    request.presence_penalty = Some(2000);
    let body = CohereRequest::new("command", &request).unwrap().body_string();
    assert_eq!(
        body,
        "{\"model\":\"command\",\"messages\":[{\"role\":\"user\",\"content\":\"hi\"}],\
         \"stream\":false,\"max_tokens\":100,\"temperature\":0.500,\"seed\":69,\
         \"frequency_penalty\":-1.250,\"presence_penalty\":2.000,\"top_p\":0.950}"
    );
}

#[test]
fn body_includes_system_prompt_first() {
    let mut request = simple_request(None);
    request.system = Some("be brief".to_string());
    request.messages.push(RequestMessage {
        role: Role::Assistant,
        content: "ok".to_string(),
    });
    let body = CohereRequest::new("command", &request).unwrap().body_string();
    assert_eq!(
        body,
        "{\"model\":\"command\",\"messages\":[{\"role\":\"system\",\"content\":\"be brief\"},\
         {\"role\":\"user\",\"content\":\"hi\"},{\"role\":\"assistant\",\"content\":\"ok\"}],\
         \"stream\":false}"
    );
}

#[test]
fn body_escapes_content() {
    let mut request = simple_request(None);
    request.messages[0].content = "say \"hi\"\nplease\\".to_string();
    let body = CohereRequest::new("command", &request).unwrap().body_string();
    assert!(body.contains("say \\\"hi\\\"\\nplease\\\\"));
}

#[test]
fn body_is_valid_json_per_serde() {
    let mut request = simple_request(Some(500));
    request.messages[0].content = "a \"quoted\" word".to_string();
    request.max_tokens = Some(7);
    let body = CohereRequest::new("command", &request).unwrap().body_string();
    let v: serde_json::Value = serde_json::from_str(&body).unwrap();
    assert_eq!(v["model"], "command");
    assert_eq!(v["messages"][0]["role"], "user");
    assert_eq!(v["messages"][0]["content"], "a \"quoted\" word");
    assert_eq!(v["stream"], false);
    assert_eq!(v["max_tokens"], 7);
    assert!((v["temperature"].as_f64().unwrap() - 0.5).abs() < 1e-9);
    assert!(v.get("top_p").is_none());
}

#[test]
fn required_tools_are_refused() {
    let mut request = simple_request(None);
    request.tool_choice = Some(ToolChoice::Required);
    let err = CohereRequest::new("command", &request).unwrap_err();
    match err {
        ErrorDetail::Config { message } => {
            assert!(message.contains("not supported"));
        }
        _ => panic!("expected a Config error"),
    }
}

#[test]
fn offered_tools_are_omitted() {
    let mut request = simple_request(None);
    request.tool_choice = Some(ToolChoice::Auto);
    let body = CohereRequest::new("command", &request).unwrap().body_string();
    assert!(!body.contains("tools"));
}

#[test]
fn try_from_maps_every_variant() {
    let st = CohereCredentials::try_from(Credential::Static(SecretKey::new("k".to_string())));
    assert!(matches!(st, Ok(CohereCredentials::Static(_))));
    let dy = CohereCredentials::try_from(Credential::Dynamic("name".to_string()));
    assert!(matches!(dy, Ok(CohereCredentials::Dynamic(_))));
    let ab = CohereCredentials::try_from(Credential::Absent);
    assert!(matches!(ab, Ok(CohereCredentials::Absent)));
    let mi = CohereCredentials::try_from(Credential::Missing);
    assert!(matches!(mi, Ok(CohereCredentials::Absent)));
}

#[test]
fn static_credential_resolves_to_its_secret() {
    let creds = CohereCredentials::Static(SecretKey::new("test-secret-value".to_string()));
    let table = DynamicCredentialTable::new();
    let key = creds.get_api_key(&table).unwrap();
    assert_eq!(key.expose_secret(), "test-secret-value");
}

#[test]
fn dynamic_credential_resolves_exact_secret_repeatedly() {
    let creds = CohereCredentials::Dynamic("cohere_key".to_string());
    let mut table = DynamicCredentialTable::new();
    table.insert(
        "cohere_key".to_string(),
        SecretKey::new("test-secret-value".to_string()),
    );
    let first = creds.get_api_key(&table).unwrap().expose_secret().clone();
    let second = creds.get_api_key(&table).unwrap().expose_secret().clone();
    assert_eq!(first, "test-secret-value");
    assert_eq!(first, second);
}

#[test]
fn dynamic_credential_absent_name_fails() {
    let creds = CohereCredentials::Dynamic("missing_name".to_string());
    let mut table = DynamicCredentialTable::new();
    table.insert("other".to_string(), SecretKey::new("x".to_string()));
    match creds.get_api_key(&table) {
        Err(ErrorDetail::ApiKeyMissing { provider_name }) => {
            assert_eq!(provider_name, "Cohere");
        }
        _ => panic!("expected ApiKeyMissing"),
    }
}

#[test]
fn absent_credential_always_fails() {
    let creds = CohereCredentials::Absent;
    let table = DynamicCredentialTable::new();
    match creds.get_api_key(&table) {
        Err(ErrorDetail::ApiKeyMissing { provider_name }) => {
            assert_eq!(provider_name, "Cohere");
        }
        _ => panic!("expected ApiKeyMissing"),
    }
}

#[test]
fn scenario_missing_credential_no_network() {
    // Credential::Absent fails before anything could be sent: the error
    // comes straight from credential resolution, with no HTTP outcome.
    let provider = CohereProvider::new("command".to_string(), Credential::Absent).unwrap();
    let table = DynamicCredentialTable::new();
    match provider.credentials.get_api_key(&table) {
        Err(ErrorDetail::ApiKeyMissing { provider_name }) => {
            assert_eq!(provider_name, "Cohere");
        }
        _ => panic!("expected ApiKeyMissing"),
    }
}

#[test]
fn scenario_server_error_carries_literal_body() {
    let raw_request = "{}".to_string();
    let outcome = HttpOutcome::Response {
        status: 500,
        body: Some("internal error".to_string()),
    };
    match interpret_outcome(&raw_request, outcome, 3) {
        Err(ErrorDetail::InferenceServer {
            status_code,
            raw_request: rq,
            raw_response,
            provider_type,
            ..
        }) => {
            assert_eq!(status_code, Some(500));
            assert_eq!(rq.as_deref(), Some("{}"));
            assert_eq!(raw_response.as_deref(), Some("internal error"));
            assert_eq!(provider_type, "cohere");
        }
        _ => panic!("expected InferenceServer"),
    }
}

#[test]
fn scenario_unparsable_body_carries_literal_text() {
    let raw_request = "{}".to_string();
    let outcome = HttpOutcome::Response {
        status: 200,
        body: Some("not json".to_string()),
    };
    match interpret_outcome(&raw_request, outcome, 3) {
        Err(ErrorDetail::InferenceServer {
            message,
            status_code,
            raw_response,
            ..
        }) => {
            assert!(message.contains("parsing"));
            assert_eq!(status_code, Some(200));
            assert_eq!(raw_response.as_deref(), Some("not json"));
        }
        _ => panic!("expected InferenceServer"),
    }
}

#[test]
fn scenario_success_maps_response() {
    let raw_request = "{}".to_string();
    let body = "{\"id\":\"resp-1\",\"generations\":[{\"id\":\"g1\",\"text\":\"Hello there\",\
                 \"finish_reason\":\"COMPLETE\",\"tokens\":12}],\"message\":\"ok\",\
                 \"metadata\":{\"api_version\":\"1\",\"input_tokens\":10,\"output_tokens\":12}}";
    let outcome = HttpOutcome::Response {
        status: 200,
        body: Some(body.to_string()),
    };
    let resp = interpret_outcome(&raw_request, outcome, 42).unwrap();
    assert_eq!(resp.id, "resp-1");
    assert_eq!(resp.content, "Hello there");
    assert_eq!(resp.finish_reason, "COMPLETE");
    assert_eq!(resp.input_tokens, 10);
    assert_eq!(resp.output_tokens, 12);
    assert_eq!(resp.latency_ms, 42);
}

#[test]
fn transport_failure_yields_client_error() {
    let raw_request = "{\"model\":\"command\"}".to_string();
    let outcome = HttpOutcome::TransportFailure {
        message: "connection refused".to_string(),
        status_code: None,
    };
    match interpret_outcome(&raw_request, outcome, 1) {
        Err(ErrorDetail::InferenceClient {
            message,
            status_code,
            raw_request: rq,
            raw_response,
            provider_type,
        }) => {
            assert_eq!(
                message,
                "error sending request to Cohere: connection refused"
            );
            assert_eq!(status_code, None);
            assert_eq!(rq.as_deref(), Some("{\"model\":\"command\"}"));
            assert_eq!(raw_response, None);
            assert_eq!(provider_type, "cohere");
        }
        _ => panic!("expected InferenceClient"),
    }
}

#[test]
fn unreadable_success_body_is_server_error_without_text() {
    let raw_request = "{}".to_string();
    let outcome = HttpOutcome::Response {
        status: 204,
        body: None,
    };
    match interpret_outcome(&raw_request, outcome, 1) {
        Err(ErrorDetail::InferenceServer {
            raw_response,
            status_code,
            ..
        }) => {
            assert_eq!(raw_response, None);
            assert_eq!(status_code, Some(204));
        }
        _ => panic!("expected InferenceServer"),
    }
}

#[test]
fn unreadable_error_body_still_reports() {
    let raw_request = "{}".to_string();
    let outcome = HttpOutcome::Response {
        status: 503,
        body: None,
    };
    match interpret_outcome(&raw_request, outcome, 1) {
        Err(ErrorDetail::InferenceServer {
            raw_response,
            status_code,
            ..
        }) => {
            assert_eq!(raw_response.as_deref(), Some(""));
            assert_eq!(status_code, Some(503));
        }
        _ => panic!("expected InferenceServer"),
    }
}

#[test]
fn dynamic_duplicate_names_first_wins() {
    let creds = CohereCredentials::Dynamic("k".to_string());
    let mut table = DynamicCredentialTable::new();
    table.insert("k".to_string(), SecretKey::new("first".to_string()));
    table.insert("k".to_string(), SecretKey::new("second".to_string()));
    let key = creds.get_api_key(&table).unwrap();
    assert_eq!(key.expose_secret(), "first");
}

#[test]
fn rendering_edges() {
    let mut request = simple_request(Some(0));
    request.max_tokens = Some(4294967295);
    request.top_p = Some(1000);
    let body = CohereRequest::new("command", &request).unwrap().body_string();
    assert!(body.contains("\"temperature\":0.000"));
    assert!(body.contains("\"max_tokens\":4294967295"));
    assert!(body.contains("\"top_p\":1.000"));
}
