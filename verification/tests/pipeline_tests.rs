use zen_rule_server::info::Info;
use zen_rule_server::main_config::ConfigError;
use zen_rule_server::main_config::MainConfig;
use zen_rule_server::pipeline::effective_rule;
use zen_rule_server::pipeline::error_status;
use zen_rule_server::pipeline::prepare;
use zen_rule_server::pipeline::shape;
use zen_rule_server::pipeline::PipelineError;
use zen_rule_server::pipeline::ResponseBody;

#[test]
fn prepare_accepts_valid_json_and_defaults_rule() {
    let body = b"{\"customer\":{\"age\":30}}".to_vec();
    let prepared = prepare(body, None).unwrap();
    assert_eq!(prepared.rule, "test_rule.json");
    let expected: serde_json::Value = serde_json::from_str("{\"customer\":{\"age\":30}}").unwrap();
    assert_eq!(prepared.context, expected);
}

#[test]
fn prepare_keeps_explicit_rule() {
    let body = b"[1,2,3]".to_vec();
    let prepared = prepare(body, Some("promotions.json".to_string())).unwrap();
    assert_eq!(prepared.rule, "promotions.json");
}

#[test]
fn prepare_accepts_non_ascii_utf8() {
    let body = "{\"name\":\"h\u{e9}llo\"}".as_bytes().to_vec();
    let prepared = prepare(body, None).unwrap();
    assert_eq!(
        prepared.context.get("name").and_then(|v| v.as_str()),
        Some("h\u{e9}llo")
    );
}

#[test]
fn prepare_rejects_non_utf8_body() {
    let body = vec![0xff, 0xfe, 0x20];
    match prepare(body, None) {
        Err(PipelineError::BodyNotUtf8(description)) => {
            assert!(!description.is_empty());
        }
        other => panic!("expected a decode failure, got {:?}", other),
    }
}

#[test]
fn prepare_rejects_invalid_json_text() {
    let body = b"{\"unterminated\":".to_vec();
    match prepare(body, None) {
        Err(PipelineError::ContextNotJson(description)) => {
            assert!(!description.is_empty());
        }
        other => panic!("expected a parse failure, got {:?}", other),
    }
}

#[test]
fn prepare_same_request_twice_gives_same_verdict() {
    let body = b"{\"n\":1}";
    let first = prepare(body.to_vec(), Some("r.json".to_string())).unwrap();
    let second = prepare(body.to_vec(), Some("r.json".to_string())).unwrap();
    assert_eq!(first.rule, second.rule);
    assert_eq!(first.context, second.context);

    let bad = vec![0x80];
    let r1 = shape(Err(prepare(bad.clone(), None).unwrap_err()));
    let r2 = shape(Err(prepare(bad, None).unwrap_err()));
    assert_eq!(r1.status, r2.status);
    match (r1.body, r2.body) {
        (ResponseBody::Note(n1), ResponseBody::Note(n2)) => {
            assert_eq!(n1.message, n2.message);
            assert_eq!(n1.render_json(), n2.render_json());
        }
        _ => panic!("expected two notes"),
    }
}

#[test]
fn repeated_bad_json_gets_identical_responses() {
    let body = b"{\"open\":";
    let r1 = shape(Err(prepare(body.to_vec(), None).unwrap_err()));
    let r2 = shape(Err(prepare(body.to_vec(), None).unwrap_err()));
    assert_eq!(r1.status, r2.status);
    match (r1.body, r2.body) {
        (ResponseBody::Note(n1), ResponseBody::Note(n2)) => assert_eq!(n1.message, n2.message),
        _ => panic!("expected two notes"),
    }
}

#[test]
fn omitted_rule_answered_as_explicit_default() {
    let good = b"{\"k\":true}";
    let p1 = prepare(good.to_vec(), None).unwrap();
    let p2 = prepare(good.to_vec(), Some("test_rule.json".to_string())).unwrap();
    assert_eq!(p1.rule, p2.rule);
    assert_eq!(p1.context, p2.context);

    let bad = b"not json";
    let r1 = shape(Err(prepare(bad.to_vec(), None).unwrap_err()));
    let r2 = shape(Err(prepare(bad.to_vec(), Some("test_rule.json".to_string())).unwrap_err()));
    assert_eq!(r1.status, r2.status);
    match (r1.body, r2.body) {
        (ResponseBody::Note(n1), ResponseBody::Note(n2)) => assert_eq!(n1.message, n2.message),
        _ => panic!("expected two notes"),
    }
}

#[test]
fn shape_forwards_evaluator_result_verbatim() {
    let value: serde_json::Value =
        serde_json::from_str("{\"decision\":\"approve\",\"score\":17}").unwrap();
    let response = shape(Ok(value.clone()));
    assert_eq!(response.status, 200);
    match response.body {
        ResponseBody::Result(forwarded) => assert_eq!(forwarded, value),
        ResponseBody::Note(note) => panic!("expected the result, got note {:?}", note.message),
    }
}

#[test]
fn shape_answers_missing_artifact_with_not_found() {
    let response = shape(Err(PipelineError::ArtifactNotFound(
        "no rule named ghost.json".to_string(),
    )));
    assert_eq!(response.status, 404);
    match response.body {
        ResponseBody::Note(note) => assert_eq!(note.message, "no rule named ghost.json"),
        ResponseBody::Result(_) => panic!("expected a note"),
    }
}

#[test]
fn error_statuses_distinguish_caller_and_server_faults() {
    assert_eq!(error_status(&PipelineError::BodyNotUtf8(String::new())), 400);
    assert_eq!(error_status(&PipelineError::ContextNotJson(String::new())), 400);
    assert_eq!(error_status(&PipelineError::ArtifactNotFound(String::new())), 404);
    assert_eq!(error_status(&PipelineError::ArtifactInvalid(String::new())), 500);
    assert_eq!(error_status(&PipelineError::EvaluationFailed(String::new())), 500);
}

#[test]
fn omitted_rule_equals_explicit_default() {
    let omitted = effective_rule(None);
    let explicit = effective_rule(Some("test_rule.json".to_string()));
    assert_eq!(omitted, explicit);
    assert_eq!(omitted, "test_rule.json");
}

#[test]
fn welcome_message_text() {
    assert_eq!(Info::welcome().message, "Welcome to Zen Engine!");
}

#[test]
fn render_plain_message() {
    let info = Info { message: "all good".to_string() };
    assert_eq!(info.render_json(), b"{\"message\":\"all good\"}".to_vec());
}

#[test]
fn render_escapes_quotes_and_backslashes() {
    let info = Info { message: "a \"b\" \\c".to_string() };
    assert_eq!(info.render_json(), b"{\"message\":\"a \\\"b\\\" \\\\c\"}".to_vec());
}

#[test]
fn render_escapes_control_characters() {
    let info = Info { message: "l1\nl2\tx\u{1}".to_string() };
    assert_eq!(
        info.render_json(),
        b"{\"message\":\"l1\\nl2\\tx\\u0001\"}".to_vec()
    );
}

#[test]
fn rendered_info_round_trips_through_a_json_parser() {
    let message = "quote \" slash \\ newline \n bell \u{7} plain";
    let info = Info { message: message.to_string() };
    let bytes = info.render_json();
    let parsed: serde_json::Value = serde_json::from_slice(&bytes).unwrap();
    assert_eq!(parsed.get("message").and_then(|v| v.as_str()), Some(message));
}

#[test]
fn config_needs_both_settings() {
    let config = MainConfig::from_parts(
        Some("127.0.0.1:8080".to_string()),
        Some("/var/rules".to_string()),
    )
    .unwrap();
    assert_eq!(config.server_addr, "127.0.0.1:8080");
    assert_eq!(config.rules_folder, "/var/rules");

    assert_eq!(
        MainConfig::from_parts(None, Some("/var/rules".to_string())).unwrap_err(),
        ConfigError::MissingServerAddr
    );
    assert_eq!(
        MainConfig::from_parts(Some("127.0.0.1:8080".to_string()), None).unwrap_err(),
        ConfigError::MissingRulesFolder
    );
    assert_eq!(
        MainConfig::from_parts(None, None).unwrap_err(),
        ConfigError::MissingServerAddr
    );
}
