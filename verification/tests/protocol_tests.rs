use github_copilot::jsonrpc::{
    classify_message, encode_frame, read_header_line, request_reply, response_outcome,
    HeaderStep, IncomingMessage, JsonRpcNotification, JsonRpcRequest,
};
use github_copilot::{CopilotError, JsonValue};

fn s(text: &str) -> JsonValue {
    JsonValue::Str(text.to_string())
}

fn obj(fields: Vec<(&str, JsonValue)>) -> JsonValue {
    JsonValue::Object(fields.into_iter().map(|(k, v)| (k.to_string(), v)).collect())
}

fn same(a: &JsonValue, b: &JsonValue) -> bool {
    format!("{:?}", a) == format!("{:?}", b)
}

#[test]
fn frame_has_content_length_header() {
    let framed = encode_frame(b"{}");
    assert_eq!(framed, b"Content-Length: 2\r\n\r\n{}".to_vec());
    let framed = encode_frame(&[7u8; 1234]);
    assert!(framed.starts_with(b"Content-Length: 1234\r\n\r\n"));
    assert_eq!(framed.len(), "Content-Length: 1234\r\n\r\n".len() + 1234);
}

#[test]
fn header_lines_set_and_end_the_length() {
    assert_eq!(read_header_line(0, "Content-Length: 42\r\n"), HeaderStep::Continue(42));
    assert_eq!(read_header_line(5, "\r\n"), HeaderStep::EndOfHeaders(5));
    assert_eq!(read_header_line(5, "\n"), HeaderStep::EndOfHeaders(5));
    assert_eq!(read_header_line(7, "Content-Type: x\r\n"), HeaderStep::Continue(7));
    assert_eq!(read_header_line(7, "Content-Length: abc\r\n"), HeaderStep::Continue(7));
    assert_eq!(read_header_line(7, "Content-Length:  12 \r\n"), HeaderStep::Continue(12));
    assert_eq!(read_header_line(7, "Content-Length: +12\r\n"), HeaderStep::Continue(12));
    assert_eq!(read_header_line(7, "content-length: 12\r\n"), HeaderStep::Continue(7));
    assert_eq!(read_header_line(3, ""), HeaderStep::Continue(3));
}

#[test]
fn frame_reads_back() {
    let body = br#"{"jsonrpc":"2.0","method":"x","params":null}"#;
    let framed = encode_frame(body);
    let text = String::from_utf8(framed.clone()).unwrap();
    let mut length = 0usize;
    let mut consumed = 0usize;
    for line in text.split_inclusive('\n') {
        consumed += line.len();
        match read_header_line(length, line) {
            HeaderStep::Continue(n) => length = n,
            HeaderStep::EndOfHeaders(n) => {
                length = n;
                break;
            }
        }
    }
    assert_eq!(length, body.len());
    assert_eq!(&framed[consumed..consumed + length], &body[..]);
}

#[test]
fn response_with_result_is_classified() {
    let msg = obj(vec![("jsonrpc", s("2.0")), ("id", s("abc")), ("result", JsonValue::Int(3))]);
    match classify_message(&msg) {
        IncomingMessage::Response(r) => {
            assert_eq!(r.id, Some("abc".to_string()));
            let out = response_outcome(r).unwrap();
            assert!(same(&out, &JsonValue::Int(3)));
        }
        other => panic!("unexpected {:?}", other),
    }
}

#[test]
fn response_with_error_settles_as_jsonrpc_error() {
    let err = obj(vec![("code", JsonValue::Int(-32000)), ("message", s("boom"))]);
    let msg = obj(vec![("jsonrpc", s("2.0")), ("id", s("1")), ("error", err)]);
    match classify_message(&msg) {
        IncomingMessage::Response(r) => match response_outcome(r) {
            Err(CopilotError::JsonRpc { code, message, data }) => {
                assert_eq!(code, -32000);
                assert_eq!(message, "boom");
                assert!(same(&data.unwrap(), &JsonValue::Null));
            }
            other => panic!("unexpected {:?}", other),
        },
        other => panic!("unexpected {:?}", other),
    }
}

#[test]
fn response_with_null_result_is_missing() {
    let msg = obj(vec![("jsonrpc", s("2.0")), ("id", s("1")), ("result", JsonValue::Null)]);
    match classify_message(&msg) {
        IncomingMessage::Response(r) => match response_outcome(r) {
            Err(CopilotError::InvalidResponse(m)) => assert_eq!(m, "Missing result and error"),
            other => panic!("unexpected {:?}", other),
        },
        other => panic!("unexpected {:?}", other),
    }
}

#[test]
fn request_with_string_id_reaches_its_handler() {
    let msg = obj(vec![
        ("jsonrpc", s("2.0")),
        ("id", s("7")),
        ("method", s("tool.call")),
        ("params", obj(vec![("sessionId", s("s1"))])),
    ]);
    match classify_message(&msg) {
        IncomingMessage::Request(q) => {
            assert_eq!(q.id, "7");
            assert_eq!(q.method, "tool.call");
            assert!(same(&q.params, &obj(vec![("sessionId", s("s1"))])));
        },
        other => panic!("unexpected {:?}", other),
    }
}

#[test]
fn request_with_numeric_id_is_a_notification() {
    let msg = obj(vec![
        ("jsonrpc", s("2.0")),
        ("id", JsonValue::Int(7)),
        ("method", s("tool.call")),
        ("params", obj(vec![])),
    ]);
    match classify_message(&msg) {
        IncomingMessage::Notification(n) => assert_eq!(n.method, "tool.call"),
        other => panic!("unexpected {:?}", other),
    }
}

#[test]
fn messages_without_version_or_method_are_dropped() {
    let no_version = obj(vec![("id", s("1")), ("result", JsonValue::Int(1))]);
    assert!(matches!(classify_message(&no_version), IncomingMessage::Unrecognized));
    let no_params = obj(vec![("jsonrpc", s("2.0")), ("method", s("m"))]);
    assert!(matches!(classify_message(&no_params), IncomingMessage::Unrecognized));
    assert!(matches!(classify_message(&s("x")), IncomingMessage::Unrecognized));
    let bad_code = obj(vec![
        ("jsonrpc", s("2.0")),
        ("id", s("1")),
        ("error", obj(vec![("code", JsonValue::Int(1 << 40)), ("message", s("m"))])),
    ]);
    assert!(matches!(classify_message(&bad_code), IncomingMessage::Unrecognized));
}

#[test]
fn replies_to_requests() {
    let id = "r1".to_string();
    let method = "tool.call".to_string();
    let ok = request_reply(&id, &method, Some(Ok(JsonValue::Bool(true))));
    assert!(same(
        &ok,
        &obj(vec![("jsonrpc", s("2.0")), ("id", s("r1")), ("result", JsonValue::Bool(true))])
    ));
    let failed = request_reply(&id, &method, Some(Err(CopilotError::Timeout)));
    assert!(same(
        &failed,
        &obj(vec![
            ("jsonrpc", s("2.0")),
            ("id", s("r1")),
            ("error", obj(vec![("code", JsonValue::Int(-32603)), ("message", s("Operation timed out"))])),
        ])
    ));
    let missing = request_reply(&id, &method, None);
    assert!(same(
        &missing,
        &obj(vec![
            ("jsonrpc", s("2.0")),
            ("id", s("r1")),
            ("error", obj(vec![
                ("code", JsonValue::Int(-32601)),
                ("message", s("Method not found: tool.call")),
            ])),
        ])
    ));
}

#[test]
fn reply_reads_back_as_response() {
    let reply = request_reply(&"q".to_string(), &"m".to_string(), Some(Ok(s("done"))));
    match classify_message(&reply) {
        IncomingMessage::Response(r) => {
            assert_eq!(r.id, Some("q".to_string()));
            assert!(same(&response_outcome(r).unwrap(), &s("done")));
        }
        other => panic!("unexpected {:?}", other),
    }
}

#[test]
fn requests_get_fresh_ids() {
    let a = JsonRpcRequest::new("ping".to_string(), obj(vec![]));
    let b = JsonRpcRequest::new("ping".to_string(), obj(vec![]));
    assert_eq!(a.jsonrpc, "2.0");
    assert_eq!(a.method, "ping");
    assert_ne!(a.id, b.id);
    assert_eq!(a.id.len(), 36);
    let j = a.to_json();
    assert!(same(
        &j,
        &obj(vec![("jsonrpc", s("2.0")), ("id", s(&a.id)), ("method", s("ping")), ("params", obj(vec![]))])
    ));
    let n = JsonRpcNotification::new("note".to_string(), JsonValue::Null).to_json();
    assert!(same(&n, &obj(vec![("jsonrpc", s("2.0")), ("method", s("note")), ("params", JsonValue::Null)])));
}

#[test]
fn request_ids_are_v4_uuid_text() {
    let id = JsonRpcRequest::new("ping".to_string(), JsonValue::Null).id;
    let cs: Vec<char> = id.chars().collect();
    assert_eq!(cs.len(), 36);
    for (i, c) in cs.iter().enumerate() {
        if i == 8 || i == 13 || i == 18 || i == 23 {
            assert_eq!(*c, '-');
        } else {
            assert!(c.is_ascii_digit() || ('a'..='f').contains(c));
        }
    }
    assert_eq!(cs[14], '4');
    assert!(matches!(cs[19], '8' | '9' | 'a' | 'b'));
}

#[test]
fn messages_in_array_form() {
    let arr = |items: Vec<JsonValue>| JsonValue::Array(items);
    let request = arr(vec![s("2.0"), s("7"), s("tool.call"), obj(vec![])]);
    match classify_message(&request) {
        IncomingMessage::Request(q) => assert_eq!((q.id.as_str(), q.method.as_str()), ("7", "tool.call")),
        other => panic!("unexpected {:?}", other),
    }
    let note = arr(vec![s("2.0"), s("session.event"), obj(vec![])]);
    match classify_message(&note) {
        IncomingMessage::Notification(n) => assert_eq!(n.method, "session.event"),
        other => panic!("unexpected {:?}", other),
    }
    let ok = arr(vec![s("2.0"), s("5"), obj(vec![("x", JsonValue::Int(1))]), JsonValue::Null]);
    match classify_message(&ok) {
        IncomingMessage::Response(r) => {
            assert_eq!(r.id.as_deref(), Some("5"));
            assert!(same(&response_outcome(r).unwrap(), &obj(vec![("x", JsonValue::Int(1))])));
        }
        other => panic!("unexpected {:?}", other),
    }
    let failed = arr(vec![
        s("2.0"),
        s("6"),
        JsonValue::Null,
        arr(vec![JsonValue::Int(-5), s("bad"), JsonValue::Null]),
    ]);
    match classify_message(&failed) {
        IncomingMessage::Response(r) => match response_outcome(r) {
            Err(CopilotError::JsonRpc { code, message, .. }) => assert_eq!((code, message.as_str()), (-5, "bad")),
            other => panic!("unexpected {:?}", other),
        },
        other => panic!("unexpected {:?}", other),
    }
    let short_error = arr(vec![s("2.0"), s("6"), JsonValue::Null, arr(vec![JsonValue::Int(-5), s("bad")])]);
    assert!(matches!(classify_message(&short_error), IncomingMessage::Unrecognized));
    assert!(matches!(classify_message(&arr(vec![s("2.0"), s("5")])), IncomingMessage::Unrecognized));
}

#[test]
fn messages_repeating_a_field_are_dropped() {
    let twice = JsonValue::Object(vec![
        ("jsonrpc".to_string(), s("2.0")),
        ("id".to_string(), s("1")),
        ("id".to_string(), s("2")),
        ("result".to_string(), JsonValue::Int(1)),
    ]);
    assert!(matches!(classify_message(&twice), IncomingMessage::Unrecognized));
    let method_twice = JsonValue::Object(vec![
        ("jsonrpc".to_string(), s("2.0")),
        ("method".to_string(), s("a")),
        ("method".to_string(), s("b")),
        ("params".to_string(), obj(vec![])),
    ]);
    assert!(matches!(classify_message(&method_twice), IncomingMessage::Unrecognized));
    let other_twice = JsonValue::Object(vec![
        ("jsonrpc".to_string(), s("2.0")),
        ("x".to_string(), s("1")),
        ("x".to_string(), s("2")),
        ("method".to_string(), s("a")),
        ("params".to_string(), obj(vec![])),
    ]);
    assert!(matches!(classify_message(&other_twice), IncomingMessage::Notification(_)));
}
