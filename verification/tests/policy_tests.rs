use chitti::retry::{retry_decision, AttemptOutcome, RetryDecision, GeminiError};
use chitti::config::{Config, LogLevel, parse_log_level};
use chitti::transcript::{ChatLine, apply_event, push_user_line};
use chitti::events::{SystemEvent, SessionState};
use chitti::resources::{resource_path, batch_create_path, files_query, upload_metadata_json,
    generate_request_json, generate_content_url, extract_candidate_text};
use chitti::json::parse_json;

#[test]
fn test_retry_policy() {
    let net = AttemptOutcome::NetworkError;
    assert_eq!(retry_decision(1, true, net), RetryDecision::RetryAfterMs(1000));
    assert_eq!(retry_decision(2, true, net), RetryDecision::RetryAfterMs(2000));
    assert_eq!(retry_decision(3, true, net), RetryDecision::RetryAfterMs(4000));
    assert_eq!(retry_decision(4, true, net), RetryDecision::GiveUp);
    assert_eq!(retry_decision(1, false, net), RetryDecision::GiveUp);

    assert_eq!(retry_decision(1, true, AttemptOutcome::Status(429)), RetryDecision::RetryAfterMs(1000));
    assert_eq!(retry_decision(1, true, AttemptOutcome::Status(500)), RetryDecision::RetryAfterMs(1000));
    assert_eq!(retry_decision(1, true, AttemptOutcome::Status(503)), RetryDecision::RetryAfterMs(1000));
    assert_eq!(retry_decision(1, true, AttemptOutcome::Status(404)), RetryDecision::GiveUp);
    assert_eq!(retry_decision(1, true, AttemptOutcome::Status(200)), RetryDecision::GiveUp);
}

#[test]
fn test_error_descriptions() {
    let api = GeminiError::Api { code: "429".to_string(), message: "slow down".to_string() };
    assert_eq!(api.describe(), "API Error: slow down (code: 429)");
    assert_eq!(GeminiError::Http("reset".to_string()).describe(), "HTTP Error: reset");
    assert_eq!(GeminiError::Codec("bad frame".to_string()).describe(), "Codec Error: bad frame");
}

#[test]
fn test_config_from_values() {
    let err = Config::from_values(None, None, None).unwrap_err();
    assert!(err.contains("GEMINI_API_KEY must be set"));

    let c = Config::from_values(Some("key".to_string()), None, None).unwrap();
    assert_eq!(c.gemini_model, "gemini-1.5-flash");
    assert!(c.dev_mode);

    let c = Config::from_values(
        Some("key".to_string()),
        Some("test-model".to_string()),
        Some("FALSE".to_string()),
    )
    .unwrap();
    assert_eq!(c.gemini_api_key, "key");
    assert_eq!(c.gemini_model, "test-model");
    assert!(!c.dev_mode);

    assert_eq!(parse_log_level("DEBUG"), LogLevel::Debug);
    assert_eq!(parse_log_level("warn"), LogLevel::Warn);
    assert_eq!(parse_log_level("odd"), LogLevel::Info);
}

fn state() -> SessionState {
    SessionState {
        model: "m".to_string(),
        thinking_level: "high".to_string(),
        streaming: true,
        memory_enabled: true,
        dev_mode: false,
        pwd: "/".to_string(),
        git_branch: "main".to_string(),
    }
}

#[test]
fn test_transcript_coalesces_model_text() {
    let mut lines: Vec<ChatLine> = Vec::new();
    push_user_line(&mut lines, "hi".to_string());
    apply_event(&mut lines, &SystemEvent::Text("Hel".to_string(), state()));
    apply_event(&mut lines, &SystemEvent::Text("lo".to_string(), state()));
    apply_event(&mut lines, &SystemEvent::Thought("mull".to_string(), state()));
    apply_event(&mut lines, &SystemEvent::Text("again".to_string(), state()));
    assert_eq!(lines.len(), 4);
    assert!(matches!(&lines[0], ChatLine::User(t) if t == "hi"));
    assert!(matches!(&lines[1], ChatLine::Model(t) if t == "Hello"));
    assert!(matches!(&lines[2], ChatLine::Thought(t) if t == "mull"));
    assert!(matches!(&lines[3], ChatLine::Model(t) if t == "again"));

    let st = apply_event(
        &mut lines,
        &SystemEvent::RequestApproval { description: "run".to_string(), state: state() },
    );
    assert_eq!(st.model, "m");
    assert_eq!(lines.len(), 6);
    assert!(matches!(&lines[4], ChatLine::System(t) if t == "APPROVAL REQUIRED: run"));
}

#[test]
fn test_resource_paths_and_queries() {
    assert_eq!(resource_path("files", "abc"), "/v1beta/files/abc");
    assert_eq!(resource_path("files", "files/abc"), "/v1beta/files/abc");
    assert_eq!(
        resource_path("cachedContents", "cachedContents/12345"),
        "/v1beta/cachedContents/12345"
    );
    assert_eq!(resource_path("batches", "b1"), "/v1beta/batches/b1");
    assert_eq!(batch_create_path("m-9"), "/v1beta/models/m-9:batchGenerateContent");

    let q = files_query(Some(25), Some("tok".to_string()));
    assert_eq!(q, vec![
        ("pageSize".to_string(), "25".to_string()),
        ("pageToken".to_string(), "tok".to_string()),
    ]);
    assert!(files_query(None, None).is_empty());

    assert_eq!(
        upload_metadata_json("notes.txt".to_string()).to_text(),
        "{\"file\":{\"display_name\":\"notes.txt\"}}"
    );
}

#[test]
fn test_legacy_generate_content_shapes() {
    assert_eq!(
        generate_request_json("Hi").to_text(),
        "{\"contents\":[{\"parts\":[{\"text\":\"Hi\"}]}]}"
    );
    assert_eq!(
        generate_content_url("http://localhost:1", "test-model", "test-key"),
        "http://localhost:1/v1beta/models/test-model:generateContent?key=test-key"
    );
    let resp = parse_json(
        b"{\"candidates\":[{\"content\":{\"parts\":[{\"text\":\"Hello from the model!\"}]}}]}",
    )
    .unwrap();
    assert_eq!(extract_candidate_text(&resp).unwrap(), "Hello from the model!");
    let empty = parse_json(b"{\"candidates\":[]}").unwrap();
    assert!(extract_candidate_text(&empty).is_none());
}
