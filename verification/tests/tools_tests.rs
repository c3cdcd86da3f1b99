use chitti::tools::{ToolRegistry, BashTool, EditorTool, WebTool, EditorPlan, parse_bash_args,
    parse_editor_args, parse_web_args, shell_result, web_fetch_result, read_file_result,
    write_file_result, list_dir_result, error_result};
use chitti::json::Json;

#[test]
fn test_tool_definitions() {
    let bash: serde_json::Value =
        serde_json::from_str(&BashTool.definition().parameters.unwrap().to_text()).unwrap();
    assert_eq!(bash["type"], "object");
    assert_eq!(bash["properties"]["command"]["type"], "string");
    assert_eq!(bash["required"][0], "command");
    assert_eq!(BashTool.name(), "execute_bash");

    let editor = EditorTool.definition();
    assert_eq!(editor.name, "file_editor");
    let schema: serde_json::Value =
        serde_json::from_str(&editor.parameters.unwrap().to_text()).unwrap();
    assert_eq!(schema["properties"]["operation"]["enum"][1], "write");
    assert_eq!(schema["required"][1], "path");

    let web = WebTool.definition();
    assert_eq!(web.name, "fetch_web");
    let schema: serde_json::Value =
        serde_json::from_str(&web.parameters.unwrap().to_text()).unwrap();
    assert_eq!(schema["properties"]["url"]["description"], "The URL to fetch.");
}

#[test]
fn test_registry_registers_and_overwrites() {
    let mut registry = ToolRegistry::new();
    registry.register(BashTool.definition());
    registry.register(EditorTool.definition());
    registry.register(WebTool.definition());
    assert_eq!(registry.len(), 3);
    assert_eq!(registry.find("file_editor"), Some(1));
    assert_eq!(registry.find("missing"), None);

    // Registering the same name again replaces, keeping the count.
    let mut replacement = BashTool.definition();
    replacement.description = "replaced".to_string();
    registry.register(replacement);
    assert_eq!(registry.len(), 3);

    let defs = registry.get_definitions();
    assert_eq!(defs.len(), 3);
    let body = defs[0].to_json().to_text();
    let json: serde_json::Value = serde_json::from_str(&body).unwrap();
    assert_eq!(json["type"], "function");
    assert_eq!(json["description"], "replaced");

    assert_eq!(
        ToolRegistry::not_found_message("ghost"),
        "Tool not found: ghost"
    );
}

#[test]
fn test_bash_args_and_result() {
    let args = Json::Obj(vec![("command".to_string(), Json::Str("ls -la".to_string()))]);
    assert_eq!(parse_bash_args(&args).unwrap(), "ls -la");
    let bad = Json::Obj(vec![("command".to_string(), Json::Num("3".to_string()))]);
    assert!(parse_bash_args(&bad).is_err());

    let ok = shell_result("out".to_string(), String::new(), 0);
    assert!(!ok.is_error);
    assert_eq!(ok.output.to_text(), "{\"stdout\":\"out\",\"stderr\":\"\",\"exit_code\":0}");
    let failed = shell_result(String::new(), "boom".to_string(), -1);
    assert!(failed.is_error);
    assert_eq!(failed.output.to_text(), "{\"stdout\":\"\",\"stderr\":\"boom\",\"exit_code\":-1}");
}

#[test]
fn test_editor_plans_and_results() {
    let read = Json::Obj(vec![
        ("operation".to_string(), Json::Str("read".to_string())),
        ("path".to_string(), Json::Str("/tmp/a".to_string())),
    ]);
    assert!(matches!(parse_editor_args(&read), EditorPlan::Read { .. }));

    let write_missing = Json::Obj(vec![
        ("operation".to_string(), Json::Str("write".to_string())),
        ("path".to_string(), Json::Str("/tmp/a".to_string())),
    ]);
    match parse_editor_args(&write_missing) {
        EditorPlan::Invalid { message } => {
            assert_eq!(message, "Missing 'content' for write operation");
        }
        other => panic!("expected an invalid plan, got {:?}", other),
    }

    let unknown = Json::Obj(vec![
        ("operation".to_string(), Json::Str("move".to_string())),
        ("path".to_string(), Json::Str("/tmp/a".to_string())),
    ]);
    match parse_editor_args(&unknown) {
        EditorPlan::Invalid { message } => assert_eq!(message, "Unknown operation: move"),
        other => panic!("expected an invalid plan, got {:?}", other),
    }

    assert_eq!(read_file_result("data".to_string()).output.to_text(), "{\"content\":\"data\"}");
    assert_eq!(write_file_result().output.to_text(), "{\"status\":\"success\"}");
    let listing = list_dir_result(vec!["a.txt".to_string(), "b".to_string()]);
    assert_eq!(listing.output.to_text(), "{\"entries\":[\"a.txt\",\"b\"]}");
    let failure = error_result("Failed to read file: missing".to_string());
    assert!(failure.is_error);
    assert_eq!(failure.output.to_text(), "{\"error\":\"Failed to read file: missing\"}");
}

#[test]
fn test_web_args_and_result() {
    let args = Json::Obj(vec![("url".to_string(), Json::Str("http://x".to_string()))]);
    assert_eq!(parse_web_args(&args).unwrap(), "http://x");
    assert!(parse_web_args(&Json::Obj(vec![])).is_err());

    let ok = web_fetch_result(200, "<html>".to_string());
    assert!(!ok.is_error);
    assert_eq!(ok.output.to_text(), "{\"status\":200,\"body\":\"<html>\"}");
    assert!(web_fetch_result(299, String::new()).is_error == false);
    assert!(web_fetch_result(300, String::new()).is_error);
    assert!(web_fetch_result(404, String::new()).is_error);
}
