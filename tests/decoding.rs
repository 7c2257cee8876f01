use octo::decode::{decode_envelope, parse_role, Choice, Envelope, ErrorObject, WireMessage};
use octo::error::ChatError;
use octo::event::{finish_reason, State, StreamState};
use octo::role::Role;

fn text(v: &serde_json::Value, key: &str) -> Option<String> {
    v.get(key).and_then(|x| x.as_str()).map(|s| s.to_string())
}

/// Reads a response body into its envelope shape.
fn envelope_from_json(body: &str) -> Envelope {
    let v: serde_json::Value = serde_json::from_str(body).unwrap();
    let error = v.get("error").map(|e| ErrorObject {
        message: text(e, "message").unwrap_or_default(),
        kind: text(e, "type").unwrap_or_default(),
        param: text(e, "param"),
        code: text(e, "code"),
    });
    let choices = v.get("choices").and_then(|cs| cs.as_array()).map(|cs| {
        cs.iter()
            .map(|c| Choice {
                index: c.get("index").and_then(|i| i.as_i64()).unwrap_or(0),
                message: WireMessage {
                    role: text(&c["message"], "role").unwrap_or_default(),
                    content: text(&c["message"], "content"),
                    tool_calls: Vec::new(),
                },
                finish_reason: text(c, "finish_reason"),
            })
            .collect()
    });
    Envelope { error, choices }
}

fn success_body(reason: &str) -> String {
    format!(
        "{{\"id\":\"c1\",\"object\":\"chat.completion\",\"created\":1,\"model\":\"m\",\"choices\":[{{\"index\":0,\"message\":{{\"role\":\"assistant\",\"content\":\"Hi there\",\"tool_calls\":[]}},\"finish_reason\":\"{}\"}}],\"usage\":{{\"prompt_tokens\":1,\"completion_tokens\":2,\"total_tokens\":3}}}}",
        reason
    )
}

#[test]
fn error_envelope_is_service_error() {
    let env = envelope_from_json(
        "{\"error\":{\"message\":\"invalid_api_key\",\"type\":\"invalid_request_error\",\"code\":\"401\"}}",
    );
    match decode_envelope(env) {
        Err(ChatError::Service { message, code }) => {
            assert_eq!(message, "invalid_api_key");
            assert_eq!(code, Some("401".to_string()));
        }
        other => panic!("expected a service error, got {:?}", other),
    }
}

#[test]
fn length_finish_reason_is_out_of_characters() {
    let d = decode_envelope(envelope_from_json(&success_body("length"))).unwrap();
    assert_eq!(d.finish, StreamState::OutOfCharacters);
    assert_eq!(d.content, "Hi there");
    assert_eq!(d.role, Role::Assistant);
}

#[test]
fn bogus_finish_reason_is_protocol_error() {
    let r = decode_envelope(envelope_from_json(&success_body("bogus_reason")));
    assert!(matches!(r, Err(ChatError::Protocol(_))));
}

#[test]
fn stop_finish_reason_is_stop() {
    let d = decode_envelope(envelope_from_json(&success_body("stop"))).unwrap();
    assert_eq!(d.finish, StreamState::Stop);
}

#[test]
fn both_envelopes_at_once_is_protocol_error() {
    let mut env = envelope_from_json(&success_body("stop"));
    env.error = Some(ErrorObject {
        message: "x".to_string(),
        kind: "y".to_string(),
        param: None,
        code: None,
    });
    assert!(matches!(decode_envelope(env), Err(ChatError::Protocol(_))));
}

#[test]
fn unknown_shape_is_protocol_error() {
    let env = envelope_from_json("{\"hello\":1}");
    assert!(matches!(decode_envelope(env), Err(ChatError::Protocol(_))));
}

#[test]
fn empty_choices_is_protocol_error() {
    let env = envelope_from_json("{\"choices\":[]}");
    assert!(matches!(decode_envelope(env), Err(ChatError::Protocol(_))));
}

#[test]
fn missing_content_decodes_as_empty() {
    let env = envelope_from_json(
        "{\"choices\":[{\"index\":0,\"message\":{\"role\":\"assistant\"},\"finish_reason\":\"tool_calls\"}]}",
    );
    let d = decode_envelope(env).unwrap();
    assert_eq!(d.content, "");
    assert_eq!(d.finish, StreamState::ToolCalls);
}

#[test]
fn finish_reason_lookup() {
    assert_eq!(finish_reason(&"stop".to_string()).unwrap(), StreamState::Stop);
    assert_eq!(finish_reason(&"length".to_string()).unwrap(), StreamState::OutOfCharacters);
    assert_eq!(finish_reason(&"content_filter".to_string()).unwrap(), StreamState::ContentFilter);
    assert_eq!(finish_reason(&"tool_calls".to_string()).unwrap(), StreamState::ToolCalls);
    assert!(matches!(finish_reason(&"Stop".to_string()), Err(ChatError::Protocol(_))));
}

#[test]
fn unknown_role_is_protocol_error() {
    assert_eq!(parse_role(&"tool".to_string()), Some(Role::Tool));
    assert_eq!(parse_role(&"robot".to_string()), None);
    let env = envelope_from_json(
        "{\"choices\":[{\"index\":0,\"message\":{\"role\":\"robot\",\"content\":\"x\"},\"finish_reason\":\"stop\"}]}",
    );
    assert!(matches!(decode_envelope(env), Err(ChatError::Protocol(_))));
}

#[test]
fn event_names() {
    assert_eq!(StreamState::OutOfCharacters.to_text(), "length");
    assert_eq!(StreamState::Done.to_text(), "done");
    assert_eq!(State::Message("abc".to_string()).to_text(), "message: abc");
    assert_eq!(State::ContentFilter.to_text(), "content_filter");
    assert_eq!(State::Message("x".to_string()).kind(), StreamState::Chunk);
}
