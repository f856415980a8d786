use github_copilot::client::{
    build_create_session_params, build_custom_agents_params, build_ping_params,
    build_provider_params, build_resume_session_params, check_protocol_version, cli_command,
    destroy_failure, keep_waiting_for_port, opened_session_id, port_from_line, ping_response_from,
    require_connection, session_id_from, stop_errors, ClientCore, ClientState, StartStep,
    PORT_WAIT_LIMIT_MS,
};
use github_copilot::{
    AzureProviderOptions, ClientOptions, ConnectionState, CopilotError, CustomAgentConfig,
    JsonValue, McpLocalServerConfig, McpServerConfig, ProviderConfig, ResumeSessionConfig,
    SessionConfig, SystemMessageConfig, Tool, SDK_PROTOCOL_VERSION,
};

fn s(text: &str) -> JsonValue {
    JsonValue::Str(text.to_string())
}

fn obj(fields: Vec<(&str, JsonValue)>) -> JsonValue {
    JsonValue::Object(fields.into_iter().map(|(k, v)| (k.to_string(), v)).collect())
}

fn same(a: &JsonValue, b: &JsonValue) -> bool {
    format!("{:?}", a) == format!("{:?}", b)
}

#[test]
fn defaults_are_filled_in() {
    let core = ClientCore::new(ClientOptions::new(), None);
    assert_eq!(core.options.cli_path, Some("copilot".to_string()));
    assert_eq!(core.options.log_level, Some("info".to_string()));
    assert_eq!(core.state, ConnectionState::Disconnected);
    assert_eq!(core.actual_host, "localhost");
    assert_eq!(core.actual_port, 0);
    assert!(!core.is_external_server);
    let env = ClientCore::new(ClientOptions::new(), Some("/opt/cli".to_string()));
    assert_eq!(env.options.cli_path, Some("/opt/cli".to_string()));
    let own = ClientCore::new(ClientOptions::new().cli_path("/a").log_level("debug"), Some("/b".to_string()));
    assert_eq!(own.options.cli_path, Some("/a".to_string()));
    assert_eq!(own.options.log_level, Some("debug".to_string()));
}

#[test]
fn start_and_stop_with_external_server() {
    let mut core = ClientCore::new(ClientOptions::new().cli_url("http://example.org:4321"), None);
    assert!(core.is_external_server);
    assert!(core.needs_start());
    assert_eq!(core.begin_start().unwrap(), StartStep::Proceed { spawn_server: false });
    assert_eq!(core.get_state(), ConnectionState::Connecting);
    assert_eq!(core.actual_host, "example.org");
    assert_eq!(core.tcp_address().unwrap(), "example.org:4321");
    match core.finish_start(Some(SDK_PROTOCOL_VERSION + 1)) {
        Err(CopilotError::ProtocolVersionMismatch { expected, actual }) => {
            assert_eq!((expected, actual), (SDK_PROTOCOL_VERSION, SDK_PROTOCOL_VERSION + 1));
        }
        other => panic!("unexpected {:?}", other),
    }
    assert_eq!(core.get_state(), ConnectionState::Connecting);
    core.finish_start(Some(SDK_PROTOCOL_VERSION)).unwrap();
    assert_eq!(core.get_state(), ConnectionState::Connected);
    assert!(!core.needs_start());
    assert_eq!(core.begin_start().unwrap(), StartStep::AlreadyConnected);
    core.stopped();
    assert_eq!(core.get_state(), ConnectionState::Disconnected);
    assert_eq!(core.actual_port, 4321);
}

#[test]
fn spawned_server_port_is_forgotten_on_stop() {
    let mut core = ClientCore::new(ClientOptions::new().port(0), None);
    assert_eq!(core.begin_start().unwrap(), StartStep::Proceed { spawn_server: true });
    match core.tcp_address() {
        Err(CopilotError::ConnectionFailed(m)) => assert_eq!(m, "Server port not available"),
        other => panic!("unexpected {:?}", other),
    }
    core.set_port(5555);
    assert_eq!(core.tcp_address().unwrap(), "localhost:5555");
    core.stopped();
    assert_eq!(core.actual_port, 0);
}

#[test]
fn bad_url_leaves_client_connecting() {
    let mut core = ClientCore::new(ClientOptions::new().cli_url("a:b:c"), None);
    match core.begin_start() {
        Err(CopilotError::InvalidUrl(m)) => {
            assert_eq!(m, "Invalid CLI URL format: a:b:c. Expected 'host:port' or 'port'")
        }
        other => panic!("unexpected {:?}", other),
    }
    assert_eq!(core.get_state(), ConnectionState::Connecting);
    let mut core = ClientCore::new(ClientOptions::new().cli_url("https://h:x"), None);
    match core.begin_start() {
        Err(CopilotError::InvalidUrl(m)) => assert_eq!(m, "Invalid port in CLI URL: h:x"),
        other => panic!("unexpected {:?}", other),
    }
}

#[test]
fn crashed_server_restarts_only_when_asked() {
    let mut core = ClientCore::new(ClientOptions::new(), None);
    core.begin_start().unwrap();
    core.set_port(5000);
    core.finish_start(Some(SDK_PROTOCOL_VERSION)).unwrap();
    assert!(core.server_exited());
    assert_eq!(core.get_state(), ConnectionState::Disconnected);
    assert_eq!(core.actual_port, 0);
    assert!(!core.server_exited());
    let mut core = ClientCore::new(ClientOptions::new().auto_restart(false), None);
    core.begin_start().unwrap();
    core.set_port(5000);
    core.finish_start(Some(SDK_PROTOCOL_VERSION)).unwrap();
    assert!(!core.server_exited());
    assert_eq!(core.get_state(), ConnectionState::Connected);
    assert_eq!(core.actual_port, 5000);
    let mut core = ClientCore::new(ClientOptions::new().cli_url("7000"), None);
    core.begin_start().unwrap();
    core.finish_start(Some(SDK_PROTOCOL_VERSION)).unwrap();
    assert!(!core.server_exited());
    assert_eq!(core.get_state(), ConnectionState::Connected);
    assert_eq!(core.actual_port, 7000);
}

#[test]
fn protocol_version_check() {
    assert!(check_protocol_version(Some(SDK_PROTOCOL_VERSION)).is_ok());
    match check_protocol_version(None) {
        Err(CopilotError::NoProtocolVersion { expected }) => assert_eq!(expected, SDK_PROTOCOL_VERSION),
        other => panic!("unexpected {:?}", other),
    }
    let e = check_protocol_version(Some(99)).unwrap_err();
    assert_eq!(
        e.message(),
        format!(
            "SDK protocol version mismatch: SDK expects version {}, but server reports version 99",
            SDK_PROTOCOL_VERSION
        )
    );
}

#[test]
fn ping_round() {
    assert!(same(&build_ping_params(&None), &obj(vec![])));
    assert!(same(&build_ping_params(&Some("hi".to_string())), &obj(vec![("message", s("hi"))])));
    let reply = obj(vec![
        ("message", s("pong")),
        ("timestamp", JsonValue::Int(1700000000)),
        ("protocolVersion", JsonValue::Int(2)),
    ]);
    let r = ping_response_from(&reply);
    assert_eq!((r.message.as_str(), r.timestamp, r.protocol_version), ("pong", 1700000000, Some(2)));
    let empty = ping_response_from(&obj(vec![]));
    assert_eq!((empty.message.as_str(), empty.timestamp, empty.protocol_version), ("", 0, None));
    let wrapped = ping_response_from(&obj(vec![("protocolVersion", JsonValue::Int((1i64 << 32) + 3))]));
    assert_eq!(wrapped.protocol_version, Some(3));
    assert_eq!(session_id_from(&obj(vec![("sessionId", s("x"))])).unwrap(), "x");
}

#[test]
fn server_commands() {
    let stdio = ClientCore::new(ClientOptions::new().cli_path("copilot"), None);
    let (p, a) = cli_command(&stdio.options).unwrap();
    assert_eq!(p, "copilot");
    assert_eq!(a, vec!["--server", "--log-level", "info", "--stdio"]);
    let tcp = ClientOptions::new().cli_path("/x/index.js").port(8080).log_level("debug");
    let (p, a) = cli_command(&tcp).unwrap();
    assert_eq!(p, "node");
    assert_eq!(a, vec!["/x/index.js", "--server", "--log-level", "debug", "--port", "8080"]);
    let tcp_no_port = ClientOptions::new().cli_path("c").use_stdio(false);
    assert_eq!(cli_command(&tcp_no_port).unwrap().1, vec!["--server", "--log-level", "info"]);
    match cli_command(&ClientOptions::new()) {
        Err(CopilotError::ServerStartFailed(m)) => assert_eq!(m, "No CLI path specified"),
        other => panic!("unexpected {:?}", other),
    }
}

#[test]
fn announced_ports() {
    assert_eq!(port_from_line("CLI server listening on port 12345"), Some(12345));
    assert_eq!(port_from_line("listening on port 80 now"), Some(80));
    assert_eq!(port_from_line("listening on port 99999"), None);
    assert_eq!(port_from_line("starting up"), None);
}

#[test]
fn provider_parameters() {
    let provider = ProviderConfig {
        provider_type: Some("azure".to_string()),
        wire_api: None,
        base_url: "https://x".to_string(),
        api_key: None,
        bearer_token: Some("tok".to_string()),
        azure: Some(AzureProviderOptions { api_version: Some("2024-10-21".to_string()) }),
    };
    let p = build_provider_params(&provider);
    let expected = obj(vec![
        ("baseUrl", s("https://x")),
        ("type", s("azure")),
        ("bearerToken", s("tok")),
        ("azure", obj(vec![("apiVersion", s("2024-10-21"))])),
    ]);
    assert!(same(&p, &expected));
}

fn agent() -> CustomAgentConfig {
    CustomAgentConfig {
        name: "auditor".to_string(),
        display_name: None,
        description: Some("audits code".to_string()),
        tools: Some(vec!["read".to_string()]),
        prompt: "Audit it".to_string(),
        mcp_servers: Some(vec![(
            "fs".to_string(),
            McpServerConfig::Local(McpLocalServerConfig {
                tools: vec!["*".to_string()],
                server_type: None,
                timeout: Some(30),
                command: "fs-server".to_string(),
                args: None,
                env: Some(vec![("K".to_string(), "V".to_string())]),
                cwd: None,
            }),
        )]),
        infer: Some(true),
    }
}

fn agent_json() -> JsonValue {
    obj(vec![
        ("name", s("auditor")),
        ("prompt", s("Audit it")),
        ("description", s("audits code")),
        ("tools", JsonValue::Array(vec![s("read")])),
        (
            "mcpServers",
            obj(vec![(
                "fs",
                obj(vec![
                    ("tools", JsonValue::Array(vec![s("*")])),
                    ("timeout", JsonValue::Int(30)),
                    ("command", s("fs-server")),
                    ("env", obj(vec![("K", s("V"))])),
                ]),
            )]),
        ),
        ("infer", JsonValue::Bool(true)),
    ])
}

#[test]
fn custom_agent_parameters() {
    let v = build_custom_agents_params(&vec![agent()]).unwrap();
    assert!(same(&v, &JsonValue::Array(vec![agent_json()])));
}

#[test]
fn create_session_parameters() {
    let none: Option<SessionConfig<u8, u8>> = None;
    assert!(same(&build_create_session_params(&none), &obj(vec![])));
    let mut cfg: SessionConfig<u8, u8> = SessionConfig::default();
    cfg.model = Some("gpt-4".to_string());
    cfg.tools = vec![Tool {
        name: "t".to_string(),
        description: None,
        parameters: Some(obj(vec![("type", s("object"))])),
        handler: 0,
    }];
    cfg.system_message = Some(SystemMessageConfig::Append { content: None });
    cfg.streaming = true;
    cfg.on_permission_request = Some(1);
    cfg.custom_agents = Some(vec![agent()]);
    let p = build_create_session_params(&Some(cfg));
    let expected = obj(vec![
        ("model", s("gpt-4")),
        (
            "tools",
            JsonValue::Array(vec![obj(vec![
                ("name", s("t")),
                ("description", JsonValue::Null),
                ("parameters", obj(vec![("type", s("object"))])),
            ])]),
        ),
        ("systemMessage", obj(vec![("mode", s("append"))])),
        ("streaming", JsonValue::Bool(true)),
        ("requestPermission", JsonValue::Bool(true)),
        ("customAgents", JsonValue::Array(vec![agent_json()])),
    ]);
    assert!(same(&p, &expected));
}

#[test]
fn resume_session_parameters() {
    let none: Option<ResumeSessionConfig<u8, u8>> = None;
    assert!(same(&build_resume_session_params(&"s".to_string(), &none), &obj(vec![("sessionId", s("s"))])));
    let mut cfg: ResumeSessionConfig<u8, u8> = ResumeSessionConfig::default();
    cfg.streaming = true;
    let p = build_resume_session_params(&"s".to_string(), &Some(cfg));
    assert!(same(&p, &obj(vec![("sessionId", s("s")), ("streaming", JsonValue::Bool(true))])));
}

#[test]
fn stop_reports_destroy_failures() {
    match destroy_failure(&CopilotError::NotConnected) {
        CopilotError::Other(m) => {
            assert_eq!(m, "Failed to destroy session: Client not connected. Call start() first")
        }
        other => panic!("unexpected {:?}", other),
    }
}

#[test]
fn stop_collects_its_errors_in_order() {
    let outcomes = vec![Err(CopilotError::Timeout), Ok(()), Err(CopilotError::ChannelClosed)];
    let kill = Some(Err(std::io::Error::new(std::io::ErrorKind::Other, "gone")));
    let errors = stop_errors(&outcomes, &kill);
    let texts: Vec<String> = errors
        .iter()
        .map(|e| match e {
            CopilotError::Other(m) => m.clone(),
            other => panic!("unexpected {:?}", other),
        })
        .collect();
    assert_eq!(
        texts,
        vec![
            "Failed to destroy session: Operation timed out".to_string(),
            "Failed to destroy session: Channel closed".to_string(),
            "Failed to kill CLI process: gone".to_string(),
        ]
    );
    assert!(stop_errors(&vec![Ok(())], &Some(Ok(()))).is_empty());
    assert!(stop_errors(&vec![], &None).is_empty());
}

#[test]
fn requests_need_a_connection() {
    match require_connection::<u8>(None) {
        Err(CopilotError::NotConnected) => {}
        other => panic!("unexpected {:?}", other),
    }
    assert_eq!(require_connection(Some(&3u8)).unwrap(), &3);
}

#[test]
fn client_state_stop_and_force_stop() {
    let mut st: ClientState<u8, &str> = ClientState::new(ClientCore::new(ClientOptions::new(), None));
    assert!(matches!(st.connection(), Err(CopilotError::NotConnected)));
    st.connection = Some(7);
    assert_eq!(st.connection().unwrap(), &7);
    st.add_session("s1".to_string(), "one");
    st.add_session("s2".to_string(), "two");
    st.add_session("s1".to_string(), "uno");
    let mut targets: Vec<&str> = st.stop_targets().into_iter().cloned().collect();
    targets.sort();
    assert_eq!(targets, vec!["two", "uno"]);
    st.core.begin_start().unwrap();
    st.core.set_port(4000);
    let errors = st.stop(&vec![Ok(()), Err(CopilotError::Timeout)], &None);
    assert_eq!(errors.len(), 1);
    assert!(st.stop_targets().is_empty());
    assert!(matches!(st.connection(), Err(CopilotError::NotConnected)));
    assert_eq!(st.core.get_state(), ConnectionState::Disconnected);
    assert_eq!(st.core.actual_port, 0);

    st.connection = Some(1);
    st.add_session("s3".to_string(), "three");
    st.force_stop();
    assert!(st.sessions.get(&"s3".to_string()).is_none());
    assert!(matches!(st.connection(), Err(CopilotError::NotConnected)));
    assert_eq!(st.core.get_state(), ConnectionState::Disconnected);
}

#[test]
fn start_outcome_decides_the_state() {
    let mut core = ClientCore::new(ClientOptions::new(), None);
    core.begin_start().unwrap();
    match core.start_outcome(Err(CopilotError::ServerStartFailed("boom".to_string()))) {
        Err(CopilotError::ServerStartFailed(m)) => assert_eq!(m, "boom"),
        other => panic!("unexpected {:?}", other),
    }
    assert_eq!(core.get_state(), ConnectionState::Connecting);
    assert!(core.start_outcome(Ok(None)).is_err());
    assert_eq!(core.get_state(), ConnectionState::Connecting);
    core.start_outcome(Ok(Some(SDK_PROTOCOL_VERSION))).unwrap();
    assert_eq!(core.get_state(), ConnectionState::Connected);
}

#[test]
fn opened_session_ids() {
    assert_eq!(opened_session_id(Ok(obj(vec![("sessionId", s("abc"))]))).unwrap(), "abc");
    match opened_session_id(Ok(obj(vec![]))) {
        Err(CopilotError::InvalidResponse(m)) => assert_eq!(m, "Missing sessionId"),
        other => panic!("unexpected {:?}", other),
    }
    assert!(matches!(opened_session_id(Err(CopilotError::ChannelClosed)), Err(CopilotError::ChannelClosed)));
}

#[test]
fn port_wait_limit() {
    assert!(keep_waiting_for_port(0).is_ok());
    assert!(keep_waiting_for_port(PORT_WAIT_LIMIT_MS - 1).is_ok());
    match keep_waiting_for_port(PORT_WAIT_LIMIT_MS) {
        Err(CopilotError::ServerStartFailed(m)) => assert_eq!(m, "Timeout waiting for port"),
        other => panic!("unexpected {:?}", other),
    }
    assert_eq!(PORT_WAIT_LIMIT_MS, 10000);
}
