use chitti::client::{Client, read_api_error, new_request_id};
use chitti::protocol::{InteractionTurn, InteractionContent, Role, media_part_for_mime, MediaPart};
use chitti::json::{Json, i64_to_string, u64_to_string, escape_string};
use chitti::protocol::{InteractionInput, InteractionPart, FunctionResponse, GenerationConfig,
    ThinkingLevel, Tool, FunctionDeclaration, ToolChoice};
use chitti::adapter::{build_turn_request, parse_thinking_level};
use chitti::events::TurnContext;

#[test]
fn test_interaction_request_serialization() {
    let client = Client::new("k".to_string(), "unused".to_string());
    let request = client
        .interaction(InteractionInput::Text("Hello".to_string()))
        .model("models/gemini-1.5-pro".to_string())
        .cached_content("cachedContents/12345".to_string())
        .build();

    let body = request.to_body();
    let json: serde_json::Value = serde_json::from_str(&body).unwrap();
    assert_eq!(json["model"], "models/gemini-1.5-pro");
    assert_eq!(json["cached_content"], "cachedContents/12345");
    assert!(json.get("agent").is_none());
    assert_eq!(json["input"], "Hello");
    // Privacy first: storage is off by default.
    assert_eq!(json["store"], false);
}

#[test]
fn test_function_response_serialization() {
    let resp = FunctionResponse {
        id: Some("call_123".to_string()),
        name: "test_func".to_string(),
        response: Json::Obj(vec![("foo".to_string(), Json::Str("bar".to_string()))]),
    };
    let part = InteractionPart::FunctionResponse(resp);
    let body = part.to_json().to_text();
    let json: serde_json::Value = serde_json::from_str(&body).unwrap();
    assert_eq!(json["type"], "function_result");
    assert_eq!(json["call_id"], "call_123");
    assert_eq!(json["name"], "test_func");
    assert_eq!(json["result"]["foo"], "bar");
}

#[test]
fn test_agent_and_model_are_mutually_exclusive() {
    let client = Client::new("k".to_string(), "m".to_string());
    let request = client
        .interaction(InteractionInput::Text("x".to_string()))
        .agent("agents/helper".to_string())
        .build();
    let json: serde_json::Value = serde_json::from_str(&request.to_body()).unwrap();
    assert_eq!(json["agent"], "agents/helper");
    assert!(json.get("model").is_none());
}

#[test]
fn test_streaming_flag_set_by_finalizer() {
    let client = Client::new("k".to_string(), "m".to_string());
    let request = client
        .interaction(InteractionInput::Text("x".to_string()))
        .build_streaming();
    let json: serde_json::Value = serde_json::from_str(&request.to_body()).unwrap();
    assert_eq!(json["stream"], true);
}

#[test]
fn test_thinking_level_merges_into_config() {
    let client = Client::new("k".to_string(), "m".to_string());
    let mut config = GenerationConfig::empty();
    config.max_output_tokens = Some(512);
    let request = client
        .interaction(InteractionInput::Text("x".to_string()))
        .generation_config(config)
        .thinking_level(ThinkingLevel::Medium)
        .build();
    let json: serde_json::Value = serde_json::from_str(&request.to_body()).unwrap();
    assert_eq!(json["generation_config"]["thinking_level"], "medium");
    assert_eq!(json["generation_config"]["max_output_tokens"], 512);
}

#[test]
fn test_turn_request_carries_context() {
    let ctx = TurnContext {
        input: InteractionInput::Text("hi".to_string()),
        previous_interaction_id: Some("prev_9".to_string()),
        streaming: true,
        thinking_level: "LOW".to_string(),
        memory_enabled: true,
        dev_mode: false,
    };
    let tools = vec![Tool::Function {
        declaration: FunctionDeclaration {
            name: "t".to_string(),
            description: "d".to_string(),
            parameters: None,
        },
    }];
    let request = build_turn_request(&ctx, &"m1".to_string(), tools);
    let json: serde_json::Value = serde_json::from_str(&request.to_body()).unwrap();
    assert_eq!(json["model"], "m1");
    assert_eq!(json["previous_interaction_id"], "prev_9");
    assert_eq!(json["generation_config"]["thinking_level"], "low");
    assert_eq!(json["tools"][0]["type"], "function");
    assert_eq!(json["tools"][0]["name"], "t");
    assert_eq!(json["store"], false);
    assert_eq!(json["stream"], true);

    // Case-insensitive with a catch-all on high.
    assert_eq!(parse_thinking_level("MINIMAL"), ThinkingLevel::Minimal);
    assert_eq!(parse_thinking_level("absurd"), ThinkingLevel::High);
}

#[test]
fn test_tool_choice_wire_shapes() {
    assert_eq!(ToolChoice::Auto.to_json().to_text(), "\"auto\"");
    assert_eq!(ToolChoice::NoTool.to_json().to_text(), "\"none\"");
    let f = ToolChoice::Function { name: "pick".to_string() };
    assert_eq!(f.to_json().to_text(), "{\"function\":{\"name\":\"pick\"}}");
}

#[test]
fn test_turns_input_serialization() {
    let turns = vec![
        InteractionTurn {
            role: Role::User,
            content: InteractionContent::from_text("q".to_string()),
        },
        InteractionTurn {
            role: Role::Model,
            content: InteractionContent::from_parts(vec![InteractionPart::Thought {
                signature: "sig".to_string(),
                summary: String::new(),
            }]),
        },
    ];
    let input = InteractionInput::Turns(turns);
    let json: serde_json::Value = serde_json::from_str(&input.to_json().to_text()).unwrap();
    assert_eq!(json[0]["role"], "user");
    assert_eq!(json[0]["content"][0]["type"], "text");
    assert_eq!(json[1]["role"], "model");
    assert_eq!(json[1]["content"][0]["type"], "thought");
    assert_eq!(json[1]["content"][0]["signature"], "sig");
    // The empty summary is left off the wire.
    assert!(json[1]["content"][0].get("summary").is_none());
}

#[test]
fn test_string_escaping() {
    assert_eq!(escape_string("plain"), "plain");
    assert_eq!(escape_string("a\"b\\c"), "a\\\"b\\\\c");
    assert_eq!(escape_string("line\nbreak\ttab\rret"), "line\\nbreak\\ttab\\rret");
    assert_eq!(escape_string("\u{1}"), "\\u0001");
    assert_eq!(escape_string("\u{1f}"), "\\u001f");
    let j = Json::Str("say \"hi\"\n".to_string());
    assert_eq!(j.to_text(), "\"say \\\"hi\\\"\\n\"");
}

#[test]
fn test_decimal_text() {
    assert_eq!(u64_to_string(0), "0");
    assert_eq!(u64_to_string(90125), "90125");
    assert_eq!(i64_to_string(-42), "-42");
    assert_eq!(i64_to_string(0), "0");
    assert_eq!(i64_to_string(i64::MIN), "-9223372036854775808");
}

#[test]
fn test_client_urls_and_headers() {
    let client = Client::new("secret".to_string(), "m".to_string());
    assert_eq!(client.base_url, "https://generativelanguage.googleapis.com");
    assert_eq!(
        client.request_url("/v1beta/interactions"),
        "https://generativelanguage.googleapis.com/v1beta/interactions"
    );
    let client = client.with_base_url("http://localhost:9999".to_string());
    let headers = client.request_headers("rid-1");
    assert_eq!(headers.len(), 3);
    assert_eq!(headers[0], ("x-goog-api-key".to_string(), "secret".to_string()));
    assert_eq!(headers[1], ("Content-Type".to_string(), "application/json".to_string()));
    assert_eq!(headers[2], ("X-Request-ID".to_string(), "rid-1".to_string()));
    let id = new_request_id();
    assert_eq!(id.chars().count(), 36);
}

#[test]
fn test_api_error_body_reading() {
    assert_eq!(
        read_api_error("{\"code\":\"RESOURCE_EXHAUSTED\",\"message\":\"quota\"}"),
        "quota"
    );
    assert_eq!(read_api_error("plain failure text"), "plain failure text");
    assert_eq!(read_api_error("{\"message\":\"no code\"}"), "{\"message\":\"no code\"}");
}

#[test]
fn test_media_part_classification() {
    let media = |mime: &str| MediaPart {
        uri: Some("files/u1".to_string()),
        data: None,
        mime_type: mime.to_string(),
    };
    assert!(matches!(media_part_for_mime(media("image/png")), InteractionPart::Image(_)));
    assert!(matches!(media_part_for_mime(media("audio/mp3")), InteractionPart::Audio(_)));
    assert!(matches!(media_part_for_mime(media("video/mp4")), InteractionPart::Video(_)));
    assert!(matches!(media_part_for_mime(media("text/plain")), InteractionPart::Document(_)));
    assert!(matches!(media_part_for_mime(media("img")), InteractionPart::Document(_)));
}
