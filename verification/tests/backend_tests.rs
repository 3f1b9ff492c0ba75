use shellmind::backend::{
    first_text, generate_command_grpc, generate_command_rest, request_contents, BackendCall,
    BackendClient, BackendError, BackendReply, Candidate, GeminiContent, GeminiPart,
    GeminiResponse,
};
use shellmind::config::{ApiType, ConfigManager, ShellmindConfig};
use shellmind::history::{History, Role, Turn};

fn s(t: &str) -> String {
    t.to_string()
}

fn config() -> ShellmindConfig {
    let mut c = ConfigManager::default_configuration(s("SECRET-REDACTED"));
    c.model_name = s("gemini-pro");
    c
}

fn history() -> History {
    let mut h = History::new();
    h.push(Turn { role: Role::User, text: s("hi") });
    h.push(Turn { role: Role::Model, text: s("hello") });
    h
}

#[test]
fn rest_call_has_url_messages_and_temperature() {
    match generate_command_rest(&config(), "list files", &history()) {
        BackendCall::Rest { url, body } => {
            assert_eq!(
                url,
                "https://generativelanguage.googleapis.com/v1beta/models/gemini-pro:generateContent?key=SECRET-REDACTED"
            );
            assert_eq!(
                body.contents,
                vec![
                    GeminiContent { role: s("user"), parts: vec![GeminiPart { text: s("hi") }] },
                    GeminiContent { role: s("model"), parts: vec![GeminiPart { text: s("hello") }] },
                    GeminiContent {
                        role: s("user"),
                        parts: vec![GeminiPart { text: s("list files") }]
                    },
                ]
            );
            assert_eq!(
                f32::from_bits(body.generation_config.unwrap().temperature_bits),
                0.2f32
            );
        }
        other => panic!("no call over HTTP: {:?}", other),
    }
}

#[test]
fn rpc_call_names_the_model_and_the_endpoint() {
    match generate_command_grpc(&config(), "list files", &History::new()) {
        Ok(BackendCall::Rpc { endpoint, model, contents, temperature_bits }) => {
            assert_eq!(endpoint, "https://generativelanguage.googleapis.com");
            assert_eq!(model, "models/gemini-pro");
            assert_eq!(contents, request_contents(&History::new(), "list files"));
            assert_eq!(contents.len(), 1);
            assert_eq!(temperature_bits, 0.2f32.to_bits());
        }
        other => panic!("no remote procedure call: {:?}", other),
    }
}

#[test]
fn rpc_call_refuses_an_endpoint_that_is_no_uri() {
    let mut c = config();
    c.grpc_endpoint = s("http://exa mple.com");
    let expected = http::Uri::from_maybe_shared(s("http://exa mple.com")).unwrap_err().to_string();
    assert_eq!(
        generate_command_grpc(&c, "x", &History::new()),
        Err(BackendError::TransportUnavailable(format!("Invalid URI: {}", expected)))
    );
    c.grpc_endpoint = s("");
    assert!(matches!(
        generate_command_grpc(&c, "x", &History::new()),
        Err(BackendError::TransportUnavailable(_))
    ));
}

#[test]
fn transport_follows_the_settings() {
    let mut c = config();
    assert_eq!(c.api_type, ApiType::Rest);
    assert!(matches!(
        BackendClient::prepare(&c, "x", &History::new()),
        Ok(BackendCall::Rest { .. })
    ));
    c.api_type = ApiType::Grpc;
    assert!(matches!(
        BackendClient::prepare(&c, "x", &History::new()),
        Ok(BackendCall::Rpc { .. })
    ));
    assert_eq!(ApiType::default(), ApiType::Rest);
}

fn response(parts_per_candidate: &[&[&str]]) -> GeminiResponse {
    GeminiResponse {
        candidates: parts_per_candidate
            .iter()
            .map(|parts| Candidate {
                content: GeminiContent {
                    role: s("model"),
                    parts: parts.iter().map(|p| GeminiPart { text: s(p) }).collect(),
                },
            })
            .collect(),
    }
}

#[test]
fn answer_is_first_part_of_first_candidate() {
    assert_eq!(first_text(&response(&[&["ls -la", "other"], &["second"]])), "ls -la");
    assert_eq!(first_text(&response(&[&[""]])), "");
}

#[test]
fn answer_without_candidate_or_part_is_the_fallback() {
    assert_eq!(first_text(&response(&[])), "No command generated");
    assert_eq!(first_text(&response(&[&[], &["second"]])), "No command generated");
    assert_eq!(
        BackendClient::conclude(BackendReply::Answered(response(&[]))),
        Ok(s("No command generated"))
    );
}

#[test]
fn replies_become_text_or_failures() {
    assert_eq!(
        BackendClient::conclude(BackendReply::Answered(response(&[&["pwd"]]))),
        Ok(s("pwd"))
    );
    assert_eq!(
        BackendClient::conclude(BackendReply::Rejected { status: s("403 Forbidden"), body: s("{}") }),
        Err(BackendError::RemoteRejected { status: s("403 Forbidden"), body: s("{}") })
    );
    assert_eq!(
        BackendClient::conclude(BackendReply::Unreachable(s("timeout"))),
        Err(BackendError::TransportUnavailable(s("timeout")))
    );
    assert_eq!(
        BackendClient::conclude(BackendReply::Undecodable(s("eof"))),
        Err(BackendError::MalformedResponse(s("eof")))
    );
}

#[test]
fn failures_have_messages() {
    assert_eq!(
        BackendError::RemoteRejected { status: s("403 Forbidden"), body: s("{}") }.message(),
        "API request failed with status: 403 Forbidden - {}"
    );
    assert_eq!(
        BackendError::TransportUnavailable(s("timeout")).message(),
        "Backend unavailable: timeout"
    );
    assert_eq!(
        BackendError::MalformedResponse(s("eof")).message(),
        "Malformed response: eof"
    );
}
