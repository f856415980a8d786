use github_copilot::session::{
    build_send_params, build_session_params, events_from, message_id_from, parse_permission_call,
    parse_tool_call, permission_reply, permission_request_from, require_session, resolve_tool,
    session_event_target, tool_call_reply, wrap_result, HandlerList, Registry, SessionHandlers,
};
use github_copilot::{
    Attachment, CopilotError, JsonValue, MessageOptions, PermissionRequestResult, ToolResult,
};

fn s(text: &str) -> JsonValue {
    JsonValue::Str(text.to_string())
}

fn obj(fields: Vec<(&str, JsonValue)>) -> JsonValue {
    JsonValue::Object(fields.into_iter().map(|(k, v)| (k.to_string(), v)).collect())
}

fn same(a: &JsonValue, b: &JsonValue) -> bool {
    format!("{:?}", a) == format!("{:?}", b)
}

#[test]
fn registry_replaces_and_removes() {
    let mut r: Registry<u32> = Registry::new();
    r.insert("a".to_string(), 1);
    r.insert("b".to_string(), 2);
    r.insert("a".to_string(), 3);
    assert_eq!(r.get(&"a".to_string()), Some(&3));
    assert_eq!(r.get(&"b".to_string()), Some(&2));
    assert_eq!(r.get(&"c".to_string()), None);
    assert_eq!(r.values().len(), 2);
    assert_eq!(r.remove(&"a".to_string()), Some(3));
    assert_eq!(r.remove(&"a".to_string()), None);
    assert_eq!(r.get(&"a".to_string()), None);
    r.clear();
    assert_eq!(r.get(&"b".to_string()), None);
}

#[test]
fn handlers_subscribe_and_unsubscribe() {
    let mut h: HandlerList<&str> = HandlerList::new();
    let first = h.subscribe("x");
    let second = h.subscribe("y");
    assert_ne!(first, second);
    h.unsubscribe(second);
    assert_eq!(h.handlers(), vec![&"x"]);
    h.unsubscribe(second);
    assert_eq!(h.handlers(), vec![&"x"]);
    h.clear();
    assert!(h.handlers().is_empty());
}

#[test]
fn each_handle_unsubscribes_its_own_handler() {
    let mut h: HandlerList<&str> = HandlerList::new();
    let k0 = h.subscribe("h0");
    let k1 = h.subscribe("h1");
    let k2 = h.subscribe("h2");
    h.unsubscribe(k0);
    assert_eq!(h.handlers(), vec![&"h1", &"h2"]);
    h.unsubscribe(k1);
    assert_eq!(h.handlers(), vec![&"h2"]);
    let k3 = h.subscribe("h3");
    assert!(k3 != k0 && k3 != k1 && k3 != k2);
    h.unsubscribe(k2);
    h.unsubscribe(k3);
    assert!(h.handlers().is_empty());
    assert!(h.can_subscribe());
}

#[test]
fn session_handlers_register_and_destroy() {
    let mut sh: SessionHandlers<&str, u8, &str> = SessionHandlers::new();
    sh.register_tools(vec![("a".to_string(), 1), ("b".to_string(), 2), ("a".to_string(), 3)]);
    assert_eq!(sh.tools.get(&"a".to_string()), Some(&3));
    assert_eq!(sh.tools.get(&"b".to_string()), Some(&2));
    sh.permission = Some("p");
    sh.events.subscribe("e");
    match sh.destroyed(Err(CopilotError::Timeout)) {
        Err(CopilotError::Timeout) => {}
        other => panic!("unexpected {:?}", other),
    }
    assert_eq!(sh.tools.get(&"b".to_string()), Some(&2));
    assert_eq!(sh.events.handlers().len(), 1);
    assert!(sh.destroyed(Ok(())).is_ok());
    assert_eq!(sh.tools.get(&"a".to_string()), None);
    assert!(sh.events.handlers().is_empty());
    assert!(sh.permission.is_none());
}

#[test]
fn send_parameters() {
    let options = MessageOptions {
        prompt: "Hello".to_string(),
        attachments: Some(vec![Attachment {
            attachment_type: "file".to_string(),
            path: "/p".to_string(),
            display_name: None,
        }]),
        mode: Some("enqueue".to_string()),
    };
    let p = build_send_params(&"s1".to_string(), &options);
    let expected = obj(vec![
        ("sessionId", s("s1")),
        ("prompt", s("Hello")),
        ("attachments", JsonValue::Array(vec![obj(vec![("type", s("file")), ("path", s("/p"))])])),
        ("mode", s("enqueue")),
    ]);
    assert!(same(&p, &expected));
    assert!(same(&build_session_params(&"s1".to_string()), &obj(vec![("sessionId", s("s1"))])));
}

#[test]
fn reply_members_are_required() {
    assert_eq!(message_id_from(&obj(vec![("messageId", s("m1"))])).unwrap(), "m1");
    match message_id_from(&obj(vec![("messageId", JsonValue::Int(1))])) {
        Err(CopilotError::InvalidResponse(m)) => assert_eq!(m, "Missing messageId"),
        other => panic!("unexpected {:?}", other),
    }
    match events_from(&obj(vec![])) {
        Err(CopilotError::InvalidResponse(m)) => assert_eq!(m, "Missing events"),
        other => panic!("unexpected {:?}", other),
    }
    assert!(same(&events_from(&obj(vec![("events", JsonValue::Array(vec![]))])).unwrap(), &JsonValue::Array(vec![])));
}

#[test]
fn permission_request_is_split() {
    let data = obj(vec![
        ("kind", s("read")),
        ("toolCallId", s("c1")),
        ("path", s("/x")),
        ("n", JsonValue::Int(2)),
    ]);
    let req = permission_request_from(&data);
    assert_eq!(req.kind, "read");
    assert_eq!(req.tool_call_id, Some("c1".to_string()));
    assert_eq!(req.extra.len(), 2);
    assert_eq!(req.extra[0].0, "path");
    assert_eq!(req.extra[1].0, "n");
    let empty = permission_request_from(&JsonValue::Null);
    assert_eq!(empty.kind, "");
    assert!(empty.tool_call_id.is_none());
    assert!(empty.extra.is_empty());
}

#[test]
fn permission_answers() {
    let denied = obj(vec![("kind", s("denied-no-approval-rule-and-could-not-request-from-user"))]);
    assert!(same(&permission_reply(None).unwrap(), &denied));
    assert!(same(&permission_reply(Some(Err(CopilotError::Timeout))).unwrap(), &denied));
    let granted = PermissionRequestResult { kind: "approved".to_string(), rules: None };
    assert!(same(&permission_reply(Some(Ok(granted))).unwrap(), &obj(vec![("kind", s("approved"))])));
    let with_rules = PermissionRequestResult { kind: "approved".to_string(), rules: Some(vec![s("r")]) };
    assert!(same(
        &permission_reply(Some(Ok(with_rules))).unwrap(),
        &obj(vec![("kind", s("approved")), ("rules", JsonValue::Array(vec![s("r")]))])
    ));
    let call = obj(vec![("sessionId", s("s")), ("permissionRequest", obj(vec![("kind", s("k"))]))]);
    let (sid, p) = parse_permission_call(&call).unwrap();
    assert_eq!(sid, "s");
    assert!(same(&p, &obj(vec![("kind", s("k"))])));
    match parse_permission_call(&obj(vec![("sessionId", s("s"))])) {
        Err(CopilotError::InvalidResponse(m)) => assert_eq!(m, "Missing permissionRequest"),
        other => panic!("unexpected {:?}", other),
    }
}

#[test]
fn tool_calls() {
    let call = obj(vec![
        ("sessionId", s("s")),
        ("toolCallId", s("c")),
        ("toolName", s("calc")),
        ("arguments", obj(vec![("a", JsonValue::Int(1))])),
    ]);
    let inv = parse_tool_call(&call).unwrap();
    assert_eq!((inv.session_id.as_str(), inv.tool_call_id.as_str(), inv.tool_name.as_str()), ("s", "c", "calc"));
    assert!(same(&inv.arguments, &obj(vec![("a", JsonValue::Int(1))])));
    let no_args = parse_tool_call(&obj(vec![("sessionId", s("s")), ("toolCallId", s("c")), ("toolName", s("t"))])).unwrap();
    assert!(same(&no_args.arguments, &JsonValue::Null));
    match parse_tool_call(&obj(vec![("sessionId", s("s")), ("toolName", s("t"))])) {
        Err(CopilotError::InvalidResponse(m)) => assert_eq!(m, "Missing toolCallId"),
        other => panic!("unexpected {:?}", other),
    }
    match parse_tool_call(&obj(vec![])) {
        Err(CopilotError::InvalidResponse(m)) => assert_eq!(m, "Missing sessionId"),
        other => panic!("unexpected {:?}", other),
    }

    let mut tools: Registry<u8> = Registry::new();
    tools.insert("calc".to_string(), 9);
    assert_eq!(resolve_tool(&inv, Some(&tools)).unwrap(), &9);
    match resolve_tool(&no_args, Some(&tools)) {
        Err(CopilotError::ToolNotFound(m)) => assert_eq!(m, "t"),
        other => panic!("unexpected {:?}", other),
    }
    match resolve_tool::<u8>(&inv, None) {
        Err(CopilotError::SessionNotFound(m)) => assert_eq!(m, "s"),
        other => panic!("unexpected {:?}", other),
    }
    match require_session::<u8>(&"zz".to_string(), None) {
        Err(CopilotError::SessionNotFound(m)) => assert_eq!(m, "zz"),
        other => panic!("unexpected {:?}", other),
    }

    let ok = tool_call_reply(Ok(ToolResult::success("42")));
    assert!(same(
        &ok,
        &obj(vec![("result", obj(vec![("textResultForLlm", s("42")), ("resultType", s("success"))]))])
    ));
    let failed = tool_call_reply(Err(CopilotError::Other("bad input".to_string())));
    assert!(same(
        &failed,
        &obj(vec![(
            "result",
            obj(vec![
                ("textResultForLlm", s("Invoking this tool produced an error. Detailed information is not available.")),
                ("resultType", s("failure")),
                ("error", s("bad input")),
            ])
        )])
    ));
    assert!(same(&wrap_result(JsonValue::Int(1)), &obj(vec![("result", JsonValue::Int(1))])));
}

#[test]
fn session_event_notifications() {
    let params = obj(vec![("sessionId", s("s9")), ("event", obj(vec![("type", s("session.idle"))]))]);
    let (sid, ev) = session_event_target(&"session.event".to_string(), &params).unwrap();
    assert_eq!(sid, "s9");
    assert!(same(&ev, &obj(vec![("type", s("session.idle"))])));
    assert!(session_event_target(&"other".to_string(), &params).is_none());
    assert!(session_event_target(&"session.event".to_string(), &obj(vec![("sessionId", s("s9"))])).is_none());
}
