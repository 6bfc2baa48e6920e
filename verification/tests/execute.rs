use rust_agents::exchange::{decimal, interpret};
use rust_agents::ident::CORRELATION_ID_LEN;
use rust_agents::result::{STATUS_COMPLETED, STATUS_FAILED};
use rust_agents::{AgentConfig, AgentResult, Exchange, Failure, RustAgent, Temperature};

fn test_agent() -> RustAgent {
    RustAgent::new(AgentConfig {
        name: "test".to_string(),
        model: "test-model".to_string(),
        ollama_url: "http://localhost:11434".to_string(),
        temperature: Temperature::from_bits(0.7f32.to_bits()),
        timeout_seconds: 5,
    })
    .expect("a client without TLS can always be built")
}

fn answer(status: u16, body: &str) -> Exchange {
    Exchange::Response { status, body: body.as_bytes().to_vec() }
}

#[test]
fn execute_asks_for_one_generation_request() {
    let agent = test_agent();
    let execution = agent.execute("hello");
    let request = execution.request();
    assert_eq!(request.url, "http://localhost:11434/api/generate");
    assert_eq!(request.model, "test-model");
    assert_eq!(request.prompt, "hello");
    assert_eq!(f32::from_bits(request.temperature.to_bits()), 0.7);
    assert!(!request.stream);
}

#[test]
fn successful_answer_completes_with_the_generated_text() {
    let agent = test_agent();
    let result = agent.execute("hello").finish(answer(200, r#"{"response": "hi there"}"#), 42);
    assert_eq!(result.status, STATUS_COMPLETED);
    assert_eq!(result.status, "completed");
    assert_eq!(result.output.as_deref(), Some("hi there"));
    assert_eq!(result.error, None);
    assert_eq!(result.duration_ms, 42);
    assert!(result.is_completed());
}

#[test]
fn correlation_id_is_not_the_agent_name() {
    let agent = test_agent();
    let result = agent.execute("hello").finish(answer(200, r#"{"response": "hi"}"#), 1);
    assert_ne!(result.agent_id, agent.config().name);
    assert_eq!(result.agent_id.chars().count(), CORRELATION_ID_LEN);
    assert_eq!(CORRELATION_ID_LEN, 36);
    let hyphens: Vec<usize> =
        result.agent_id.char_indices().filter(|(_, c)| *c == '-').map(|(i, _)| i).collect();
    assert_eq!(hyphens, vec![8, 13, 18, 23]);
    assert!(result.agent_id.chars().all(|c| c == '-' || c.is_ascii_hexdigit()));
}

#[test]
fn repeated_calls_on_one_agent_get_fresh_ids() {
    let agent = test_agent();
    let first = agent.execute("hello").finish(answer(200, r#"{"response": "a"}"#), 1);
    let second = agent.execute("hello").finish(answer(200, r#"{"response": "a"}"#), 1);
    assert_ne!(first.agent_id, second.agent_id);
}

#[test]
fn unreachable_endpoint_fails_with_a_cause() {
    let agent = test_agent();
    let exchange = Exchange::NoResponse { cause: "connection refused".to_string() };
    let result = agent.execute("hello").finish(exchange, 5003);
    assert_eq!(result.status, STATUS_FAILED);
    assert_eq!(result.status, "failed");
    assert!(!result.is_completed());
    assert_eq!(result.output, None);
    assert_eq!(result.error.as_deref(), Some("request failed: connection refused"));
    assert_eq!(result.duration_ms, 5003);
}

#[test]
fn failure_without_a_stated_cause_still_has_an_error() {
    let agent = test_agent();
    let result = agent.execute("hello").finish(Exchange::NoResponse { cause: String::new() }, 0);
    assert!(!result.is_completed());
    assert_eq!(result.error.as_deref(), Some("request failed: "));
    assert!(!result.error.unwrap().is_empty());
}

#[test]
fn non_success_status_fails() {
    let agent = test_agent();
    let result = agent.execute("hello").finish(answer(503, r#"{"response": "ignored"}"#), 9);
    assert_eq!(result.status, "failed");
    assert_eq!(result.output, None);
    assert_eq!(result.error.as_deref(), Some("backend returned HTTP status 503"));
    assert_eq!(result.duration_ms, 9);
}

#[test]
fn success_range_is_200_to_299() {
    let body = r#"{"response": "ok"}"#;
    assert!(matches!(interpret(answer(199, body)), Err(Failure::Status { code: 199 })));
    assert!(matches!(interpret(answer(200, body)), Ok(Some(_))));
    assert!(matches!(interpret(answer(204, body)), Ok(Some(_))));
    assert!(matches!(interpret(answer(299, body)), Ok(Some(_))));
    assert!(matches!(interpret(answer(300, body)), Err(Failure::Status { code: 300 })));
    assert!(matches!(interpret(answer(404, body)), Err(Failure::Status { code: 404 })));
    assert!(matches!(interpret(answer(0, body)), Err(Failure::Status { code: 0 })));
    assert!(matches!(interpret(answer(65535, body)), Err(Failure::Status { code: 65535 })));
}

#[test]
fn body_that_is_not_json_fails() {
    let agent = test_agent();
    let result = agent.execute("hello").finish(answer(200, "<html>busy</html>"), 3);
    assert_eq!(result.status, "failed");
    assert_eq!(result.output, None);
    assert_eq!(result.error.as_deref(), Some("response body is not valid JSON"));

    assert!(matches!(interpret(answer(200, "")), Err(Failure::Decode)));
    assert!(matches!(interpret(answer(200, r#"{"response": "cut"#)), Err(Failure::Decode)));
    assert!(matches!(interpret(answer(200, r#"{"response": "a"} trailing"#)), Err(Failure::Decode)));
    let not_utf8 = Exchange::Response { status: 200, body: vec![0xff, 0xfe, 0x00] };
    assert!(matches!(interpret(not_utf8), Err(Failure::Decode)));
}

#[test]
fn missing_response_member_completes_without_output() {
    let agent = test_agent();
    let result = agent.execute("hello").finish(answer(200, r#"{"done": true}"#), 8);
    assert_eq!(result.status, "completed");
    assert_eq!(result.output, None);
    assert_eq!(result.error, None);
    assert_eq!(result.duration_ms, 8);
}

#[test]
fn response_member_of_another_type_completes_without_output() {
    for body in [
        r#"{"response": 17}"#,
        r#"{"response": null}"#,
        r#"{"response": true}"#,
        r#"{"response": ["hi"]}"#,
        r#"{"response": {"text": "hi"}}"#,
    ] {
        match interpret(answer(200, body)) {
            Ok(None) => {}
            other => panic!("{body}: {other:?}"),
        }
    }
}

#[test]
fn document_that_is_no_object_completes_without_output() {
    for body in [r#""response""#, "[1, 2]", "12", "null", r#"["response", "hi"]"#] {
        match interpret(answer(200, body)) {
            Ok(None) => {}
            other => panic!("{body}: {other:?}"),
        }
    }
}

#[test]
fn response_text_is_decoded_as_json() {
    let body = r#"{"model": "m", "response": "line one\nsaid \"hi\" é", "done": true}"#;
    match interpret(answer(200, body)) {
        Ok(Some(text)) => assert_eq!(text, "line one\nsaid \"hi\" \u{e9}"),
        other => panic!("{other:?}"),
    }
    match interpret(answer(200, r#"{"response": ""}"#)) {
        Ok(Some(text)) => assert_eq!(text, ""),
        other => panic!("{other:?}"),
    }
}

#[test]
fn only_the_exact_key_counts() {
    for body in [r#"{"Response": "hi"}"#, r#"{"response ": "hi"}"#, r#"{"a": {"response": "hi"}}"#] {
        match interpret(answer(200, body)) {
            Ok(None) => {}
            other => panic!("{body}: {other:?}"),
        }
    }
}

#[test]
fn transport_failure_keeps_its_cause() {
    match interpret(Exchange::NoResponse { cause: "operation timed out".to_string() }) {
        Err(Failure::Transport { cause }) => assert_eq!(cause, "operation timed out"),
        other => panic!("{other:?}"),
    }
}

#[test]
fn failure_messages() {
    assert_eq!(
        Failure::Transport { cause: "dns error".to_string() }.message(),
        "request failed: dns error"
    );
    assert_eq!(Failure::Status { code: 404 }.message(), "backend returned HTTP status 404");
    assert_eq!(Failure::Status { code: 0 }.message(), "backend returned HTTP status 0");
    assert_eq!(Failure::Decode.message(), "response body is not valid JSON");
}

#[test]
fn decimal_writes_numbers_as_std_does() {
    for n in [0u16, 1, 9, 10, 11, 99, 100, 101, 200, 299, 404, 999, 1000, 9999, 10000, 65535] {
        assert_eq!(decimal(n), n.to_string());
    }
}

#[test]
fn from_outcome_shapes_both_kinds_of_result() {
    let done = AgentResult::from_outcome("id-1".to_string(), Ok(Some("text".to_string())), 10);
    assert_eq!(done.agent_id, "id-1");
    assert_eq!(done.status, "completed");
    assert_eq!(done.output.as_deref(), Some("text"));
    assert_eq!(done.error, None);
    assert_eq!(done.duration_ms, 10);

    let silent = AgentResult::from_outcome("id-2".to_string(), Ok(None), 11);
    assert_eq!(silent.status, "completed");
    assert_eq!(silent.output, None);
    assert_eq!(silent.error, None);

    let failed = AgentResult::from_outcome("id-3".to_string(), Err(Failure::Decode), u128::MAX);
    assert_eq!(failed.agent_id, "id-3");
    assert_eq!(failed.status, "failed");
    assert_eq!(failed.output, None);
    assert_eq!(failed.error.as_deref(), Some("response body is not valid JSON"));
    assert_eq!(failed.duration_ms, u128::MAX);
}

#[test]
fn is_completed_matches_the_marker_exactly() {
    let mut result = AgentResult::from_outcome("id".to_string(), Ok(None), 0);
    assert!(result.is_completed());
    for status in ["Completed", "completed ", "complete", "", "failed", "done"] {
        result.status = status.to_string();
        assert!(!result.is_completed(), "{status:?}");
    }
}
