use github_copilot::session_events::SessionEventType;
use github_copilot::{
    CopilotError, JsonValue, McpRemoteServerConfig, McpServerConfig, SystemMessageConfig,
    ToolBinaryResult, ToolResult, ToolResultLike,
};

fn s(text: &str) -> JsonValue {
    JsonValue::Str(text.to_string())
}

fn obj(fields: Vec<(&str, JsonValue)>) -> JsonValue {
    JsonValue::Object(fields.into_iter().map(|(k, v)| (k.to_string(), v)).collect())
}

fn same(a: &JsonValue, b: &JsonValue) -> bool {
    format!("{:?}", a) == format!("{:?}", b)
}

#[test]
fn system_message_forms() {
    let replace = SystemMessageConfig::Replace { content: "be brief".to_string() };
    assert!(same(&replace.to_json(), &obj(vec![("mode", s("replace")), ("content", s("be brief"))])));
    let append = SystemMessageConfig::Append { content: Some("more".to_string()) };
    assert!(same(&append.to_json(), &obj(vec![("mode", s("append")), ("content", s("more"))])));
}

#[test]
fn remote_server_form() {
    let remote = McpServerConfig::Remote(McpRemoteServerConfig {
        tools: vec![],
        server_type: "http".to_string(),
        timeout: None,
        url: "https://mcp".to_string(),
        headers: Some(vec![("Authorization".to_string(), "x".to_string())]),
    });
    assert!(same(
        &remote.to_json(),
        &obj(vec![
            ("tools", JsonValue::Array(vec![])),
            ("type", s("http")),
            ("url", s("https://mcp")),
            ("headers", obj(vec![("Authorization", s("x"))])),
        ])
    ));
}

#[test]
fn tool_result_form() {
    let mut r = ToolResult::success("out");
    r.binary_results_for_llm = Some(vec![ToolBinaryResult {
        data: "AA==".to_string(),
        mime_type: "image/png".to_string(),
        result_type: "image".to_string(),
        description: None,
    }]);
    r.session_log = Some("log".to_string());
    r.tool_telemetry = Some(vec![("ms".to_string(), JsonValue::Int(5))]);
    assert!(same(
        &r.to_json(),
        &obj(vec![
            ("textResultForLlm", s("out")),
            (
                "binaryResultsForLlm",
                JsonValue::Array(vec![obj(vec![
                    ("data", s("AA==")),
                    ("mimeType", s("image/png")),
                    ("type", s("image")),
                ])]),
            ),
            ("resultType", s("success")),
            ("sessionLog", s("log")),
            ("toolTelemetry", obj(vec![("ms", JsonValue::Int(5))])),
        ])
    ));
}

#[test]
fn tool_result_like_values() {
    let t = "text".into_tool_result().unwrap();
    assert_eq!((t.text_result_for_llm.as_str(), t.result_type.as_str()), ("text", "success"));
    let t = String::from("owned").into_tool_result().unwrap();
    assert_eq!(t.text_result_for_llm, "owned");
    let t = ToolResult::failure("e").into_tool_result().unwrap();
    assert_eq!(t.result_type, "failure");
}

#[test]
fn event_type_names() {
    assert_eq!(SessionEventType::AssistantMessageDelta.wire_name(), "assistant.message_delta");
    assert_eq!(SessionEventType::Abort.wire_name(), "abort");
    assert_eq!(SessionEventType::from_wire_name("session.idle"), Some(SessionEventType::SessionIdle));
    assert_eq!(SessionEventType::from_wire_name("tool.user_requested"), Some(SessionEventType::ToolUserRequested));
    assert_eq!(SessionEventType::from_wire_name("session_idle"), None);
    let all = [
        SessionEventType::UserMessage,
        SessionEventType::HookStart,
        SessionEventType::CustomAgentFailed,
        SessionEventType::SessionTruncation,
    ];
    for t in all {
        assert_eq!(SessionEventType::from_wire_name(t.wire_name()), Some(t));
    }
}

#[test]
fn error_texts() {
    assert_eq!(
        CopilotError::jsonrpc(-32601, "Method not found".to_string()).message(),
        "JSON-RPC error -32601: Method not found"
    );
    assert_eq!(CopilotError::InvalidUrl("u".to_string()).message(), "Invalid URL format: u");
    assert_eq!(CopilotError::NoProtocolVersion { expected: 2 }.message(),
        "SDK protocol version mismatch: SDK expects version 2, but server does not report a protocol version");
    let io = CopilotError::Io(std::io::Error::new(std::io::ErrorKind::Other, "disk"));
    assert_eq!(io.message(), "I/O error: disk");
    match CopilotError::jsonrpc_with_data(1, "m".to_string(), JsonValue::Bool(false)) {
        CopilotError::JsonRpc { code, message, data } => {
            assert_eq!((code, message.as_str()), (1, "m"));
            assert!(same(&data.unwrap(), &JsonValue::Bool(false)));
        }
        other => panic!("unexpected {:?}", other),
    }
}

#[test]
fn copies_are_equal() {
    let v = obj(vec![("a", JsonValue::Array(vec![JsonValue::Number("1.5".to_string()), JsonValue::Null]))]);
    assert!(same(&v.copy(), &v));
    assert!(same(&v.clone(), &v));
    assert!(same(v.get("a").unwrap(), &JsonValue::Array(vec![JsonValue::Number("1.5".to_string()), JsonValue::Null])));
    assert!(v.get("b").is_none());
}

#[test]
fn event_kind_predicates() {
    assert!(SessionEventType::AssistantMessage.is_assistant_message());
    assert!(!SessionEventType::AssistantMessageDelta.is_assistant_message());
    assert!(SessionEventType::SessionIdle.is_session_idle());
    assert!(!SessionEventType::SessionError.is_session_idle());
    assert!(SessionEventType::SessionError.is_session_error());
    assert!(!SessionEventType::Abort.is_session_error());
}
