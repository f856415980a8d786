//! Configuration and data types of the client library, and the JSON forms in
//! which they travel to the server.
use crate::json::{
    json_str, json_str_array, json_string, lemma_view_fields_push, lemma_view_items_push, members_json,
    no_members, opt_member, opt_str_json, push_member, push_opt_member, push_opt_str, str_array,
    string_pairs_json, string_pairs_members, values_json, view_fields, view_items, views_of, Json,
    JsonValue,
};
use vstd::prelude::*;

verus! {

/// A value that can become an owned string (the text arguments of builders).
pub trait IntoText: Sized {
    /// The text this value stands for.
    spec fn text(&self) -> Seq<char>;

    /// The owned string.
    fn into_text(self) -> (r: String)
        ensures
            r@ == self.text(),
    ;
}

impl<'a> IntoText for &'a str {
    open spec fn text(&self) -> Seq<char> {
        (**self)@
    }

    fn into_text(self) -> (r: String) {
        String::from_str(self)
    }
}

impl IntoText for String {
    open spec fn text(&self) -> Seq<char> {
        self@
    }

    fn into_text(self) -> (r: String) {
        self
    }
}

impl<'a> IntoText for &'a String {
    open spec fn text(&self) -> Seq<char> {
        (**self)@
    }

    fn into_text(self) -> (r: String) {
        self.clone()
    }
}

/// Connection state of the client.
#[derive(Debug, Clone, Copy, PartialEq, Eq, Structural)]
pub enum ConnectionState {
    Disconnected,
    Connecting,
    Connected,
    Error,
}

/// Client configuration options.
#[derive(Debug, Clone, Default)]
pub struct ClientOptions {
    /// Path to the Copilot CLI executable (default: "copilot").
    pub cli_path: Option<String>,
    /// Working directory for the CLI process.
    pub cwd: Option<String>,
    /// Server port for TCP transport (default: 0 = random port).
    pub port: Option<u16>,
    /// Use stdio transport instead of TCP (default: true).
    pub use_stdio: bool,
    /// URL of an existing CLI server to connect to over TCP:
    /// "host:port", "http://host:port", or just "port" (localhost).
    pub cli_url: Option<String>,
    /// Log level for the CLI server (default: "info").
    pub log_level: Option<String>,
    /// Start the CLI server on first use (default: true).
    pub auto_start: bool,
    /// Restart the CLI server if it crashes (default: true).
    pub auto_restart: bool,
    /// Environment variables for the CLI process.
    pub env: Option<Vec<(String, String)>>,
}

/// Mathematical view of [`ClientOptions`].
pub struct ClientOptionsView {
    pub cli_path: Option<Seq<char>>,
    pub cwd: Option<Seq<char>>,
    pub port: Option<u16>,
    pub use_stdio: bool,
    pub cli_url: Option<Seq<char>>,
    pub log_level: Option<Seq<char>>,
    pub auto_start: bool,
    pub auto_restart: bool,
    pub env: Option<Seq<(Seq<char>, Seq<char>)>>,
}

impl ClientOptions {
    pub open spec fn view(&self) -> ClientOptionsView {
        ClientOptionsView {
            cli_path: self.cli_path.deep_view(),
            cwd: self.cwd.deep_view(),
            port: self.port,
            use_stdio: self.use_stdio,
            cli_url: self.cli_url.deep_view(),
            log_level: self.log_level.deep_view(),
            auto_start: self.auto_start,
            auto_restart: self.auto_restart,
            env: self.env.deep_view(),
        }
    }

    /// Options with every default: stdio transport, auto start and restart.
    pub fn new() -> (r: Self)
        ensures
            r@ == (ClientOptionsView {
                cli_path: None,
                cwd: None,
                port: None,
                use_stdio: true,
                cli_url: None,
                log_level: None,
                auto_start: true,
                auto_restart: true,
                env: None,
            }),
    {
        ClientOptions {
            cli_path: None,
            cwd: None,
            port: None,
            use_stdio: true,
            cli_url: None,
            log_level: None,
            auto_start: true,
            auto_restart: true,
            env: None,
        }
    }

    /// Sets the path of the CLI executable.
    pub fn cli_path(self, path: impl IntoText) -> (r: Self)
        ensures
            r@ == (ClientOptionsView { cli_path: Some(path.text()), ..self@ }),
    {
        let mut s = self;
        s.cli_path = Some(path.into_text());
        s
    }

    /// Sets the working directory of the CLI process.
    pub fn cwd(self, cwd: impl IntoText) -> (r: Self)
        ensures
            r@ == (ClientOptionsView { cwd: Some(cwd.text()), ..self@ }),
    {
        let mut s = self;
        s.cwd = Some(cwd.into_text());
        s
    }

    /// Chooses the stdio transport (or not).
    pub fn use_stdio(self, use_stdio: bool) -> (r: Self)
        ensures
            r@ == (ClientOptionsView { use_stdio, ..self@ }),
    {
        let mut s = self;
        s.use_stdio = use_stdio;
        s
    }

    /// Sets the TCP port, which also selects the TCP transport.
    pub fn port(self, port: u16) -> (r: Self)
        ensures
            r@ == (ClientOptionsView { port: Some(port), use_stdio: false, ..self@ }),
    {
        let mut s = self;
        s.port = Some(port);
        s.use_stdio = false;
        s
    }

    /// Sets the URL of an existing server, which also selects the TCP transport.
    pub fn cli_url(self, url: impl IntoText) -> (r: Self)
        ensures
            r@ == (ClientOptionsView { cli_url: Some(url.text()), use_stdio: false, ..self@ }),
    {
        let mut s = self;
        s.cli_url = Some(url.into_text());
        s.use_stdio = false;
        s
    }

    /// Sets the log level of the CLI server.
    pub fn log_level(self, level: impl IntoText) -> (r: Self)
        ensures
            r@ == (ClientOptionsView { log_level: Some(level.text()), ..self@ }),
    {
        let mut s = self;
        s.log_level = Some(level.into_text());
        s
    }

    /// Turns automatic start on or off.
    pub fn auto_start(self, enabled: bool) -> (r: Self)
        ensures
            r@ == (ClientOptionsView { auto_start: enabled, ..self@ }),
    {
        let mut s = self;
        s.auto_start = enabled;
        s
    }

    /// Turns automatic restart on or off.
    pub fn auto_restart(self, enabled: bool) -> (r: Self)
        ensures
            r@ == (ClientOptionsView { auto_restart: enabled, ..self@ }),
    {
        let mut s = self;
        s.auto_restart = enabled;
        s
    }

    /// Sets the environment variables of the CLI process.
    pub fn env(self, env: Vec<(String, String)>) -> (r: Self)
        ensures
            r@ == (ClientOptionsView { env: Some(env.deep_view()), ..self@ }),
    {
        let mut s = self;
        s.env = Some(env);
        s
    }
}

} // verus!

verus! {

/// How the system message of a session is customised.
#[derive(Debug, Clone)]
#[allow(inconsistent_fields)]
pub enum SystemMessageConfig {
    /// Append content to the default system message.
    Append { content: Option<String> },
    /// Replace the whole system message.
    Replace { content: String },
}

impl SystemMessageConfig {
    /// JSON form: tagged by `mode` (`"append"` or `"replace"`).
    pub open spec fn json(&self) -> Json {
        match self {
            SystemMessageConfig::Append { content } => Json::Object(
                seq![("mode"@, Json::Str("append"@))] + opt_member("content"@, opt_str_json(*content)),
            ),
            SystemMessageConfig::Replace { content } => Json::Object(
                seq![("mode"@, Json::Str("replace"@)), ("content"@, Json::Str(content@))],
            ),
        }
    }

    /// The JSON form sent to the server.
    pub fn to_json(&self) -> (r: JsonValue)
        ensures
            r@ == self.json(),
    {
        let mut f = no_members();
        match self {
            SystemMessageConfig::Append { content } => {
                push_member(&mut f, "mode", json_str("append"));
                push_opt_str(&mut f, "content", content);
                assert(view_fields(f@) =~= seq![("mode"@, Json::Str("append"@))] + opt_member(
                    "content"@,
                    opt_str_json(*content),
                ));
            },
            SystemMessageConfig::Replace { content } => {
                push_member(&mut f, "mode", json_str("replace"));
                push_member(&mut f, "content", json_string(content));
                assert(view_fields(f@) =~= seq![
                    ("mode"@, Json::Str("replace"@)),
                    ("content"@, Json::Str(content@)),
                ]);
            },
        }
        JsonValue::Object(f)
    }
}

/// A permission request from the server.
#[derive(Debug, Clone)]
pub struct PermissionRequest {
    pub kind: String,
    pub tool_call_id: Option<String>,
    /// The request's other members, each name once.
    pub extra: Vec<(String, JsonValue)>,
}

/// The answer to a permission request.
#[derive(Debug, Clone)]
pub struct PermissionRequestResult {
    pub kind: String,
    pub rules: Option<Vec<JsonValue>>,
}

impl PermissionRequestResult {
    /// JSON form: `kind`, then `rules` when present.
    pub open spec fn json(&self) -> Json {
        Json::Object(
            seq![("kind"@, Json::Str(self.kind@))] + opt_member(
                "rules"@,
                match self.rules {
                    Some(r) => Some(Json::Array(view_items(r@))),
                    None => None,
                },
            ),
        )
    }

    /// The JSON form sent to the server.
    pub fn to_json(&self) -> (r: JsonValue)
        ensures
            r@ == self.json(),
    {
        let mut f = no_members();
        push_member(&mut f, "kind", json_string(&self.kind));
        let rules = match &self.rules {
            Some(r) => Some(values_json(r)),
            None => None,
        };
        push_opt_member(&mut f, "rules", rules);
        assert(view_fields(f@) =~= seq![("kind"@, Json::Str(self.kind@))] + opt_member(
            "rules"@,
            match self.rules {
                Some(r) => Some(Json::Array(view_items(r@))),
                None => None,
            },
        ));
        JsonValue::Object(f)
    }
}

/// Context of a permission request.
#[derive(Debug, Clone)]
pub struct PermissionInvocation {
    pub session_id: String,
}

/// A local (stdio) MCP server.
#[derive(Debug, Clone)]
pub struct McpLocalServerConfig {
    pub tools: Vec<String>,
    pub server_type: Option<String>,
    pub timeout: Option<u32>,
    pub command: String,
    pub args: Option<Vec<String>>,
    /// Environment variables, each name once.
    pub env: Option<Vec<(String, String)>>,
    pub cwd: Option<String>,
}

/// A remote (HTTP or SSE) MCP server.
#[derive(Debug, Clone)]
pub struct McpRemoteServerConfig {
    pub tools: Vec<String>,
    pub server_type: String,
    pub timeout: Option<u32>,
    pub url: String,
    /// HTTP headers, each name once.
    pub headers: Option<Vec<(String, String)>>,
}

/// An MCP server, local or remote.
#[derive(Debug, Clone)]
pub enum McpServerConfig {
    Local(McpLocalServerConfig),
    Remote(McpRemoteServerConfig),
}

/// An optional list of strings as optional JSON.
pub open spec fn opt_str_array(v: Option<Vec<String>>) -> Option<Json> {
    match v {
        Some(items) => Some(str_array(views_of(items@))),
        None => None,
    }
}

/// An optional string map as optional JSON.
pub open spec fn opt_pairs(v: Option<Vec<(String, String)>>) -> Option<Json> {
    match v {
        Some(p) => Some(Json::Object(string_pairs_members(p@))),
        None => None,
    }
}

/// An optional count as optional JSON.
pub open spec fn opt_u32(v: Option<u32>) -> Option<Json> {
    match v {
        Some(n) => Some(Json::Int(n as int)),
        None => None,
    }
}

impl McpLocalServerConfig {
    /// JSON form: `tools`, `type`?, `timeout`?, `command`, `args`?, `env`?, `cwd`?.
    pub open spec fn json(&self) -> Json {
        Json::Object(
            seq![("tools"@, str_array(views_of(self.tools@)))] + opt_member(
                "type"@,
                opt_str_json(self.server_type),
            ) + opt_member("timeout"@, opt_u32(self.timeout)) + seq![
                ("command"@, Json::Str(self.command@)),
            ] + opt_member("args"@, opt_str_array(self.args)) + opt_member(
                "env"@,
                opt_pairs(self.env),
            ) + opt_member("cwd"@, opt_str_json(self.cwd)),
        )
    }

    /// The JSON form sent to the server.
    pub fn to_json(&self) -> (r: JsonValue)
        ensures
            r@ == self.json(),
    {
        let mut f = no_members();
        push_member(&mut f, "tools", json_str_array(&self.tools));
        push_opt_str(&mut f, "type", &self.server_type);
        let timeout = match self.timeout {
            Some(n) => Some(JsonValue::Int(n as i64)),
            None => None,
        };
        push_opt_member(&mut f, "timeout", timeout);
        push_member(&mut f, "command", json_string(&self.command));
        let args = match &self.args {
            Some(a) => Some(json_str_array(a)),
            None => None,
        };
        push_opt_member(&mut f, "args", args);
        let env = match &self.env {
            Some(e) => Some(string_pairs_json(e)),
            None => None,
        };
        push_opt_member(&mut f, "env", env);
        push_opt_str(&mut f, "cwd", &self.cwd);
        assert(view_fields(f@) =~= seq![("tools"@, str_array(views_of(self.tools@)))] + opt_member(
            "type"@,
            opt_str_json(self.server_type),
        ) + opt_member("timeout"@, opt_u32(self.timeout)) + seq![
            ("command"@, Json::Str(self.command@)),
        ] + opt_member("args"@, opt_str_array(self.args)) + opt_member(
            "env"@,
            opt_pairs(self.env),
        ) + opt_member("cwd"@, opt_str_json(self.cwd)));
        JsonValue::Object(f)
    }
}

impl McpRemoteServerConfig {
    /// JSON form: `tools`, `type`, `timeout`?, `url`, `headers`?.
    pub open spec fn json(&self) -> Json {
        Json::Object(
            seq![
                ("tools"@, str_array(views_of(self.tools@))),
                ("type"@, Json::Str(self.server_type@)),
            ] + opt_member("timeout"@, opt_u32(self.timeout)) + seq![
                ("url"@, Json::Str(self.url@)),
            ] + opt_member("headers"@, opt_pairs(self.headers)),
        )
    }

    /// The JSON form sent to the server.
    pub fn to_json(&self) -> (r: JsonValue)
        ensures
            r@ == self.json(),
    {
        let mut f = no_members();
        push_member(&mut f, "tools", json_str_array(&self.tools));
        push_member(&mut f, "type", json_string(&self.server_type));
        let timeout = match self.timeout {
            Some(n) => Some(JsonValue::Int(n as i64)),
            None => None,
        };
        push_opt_member(&mut f, "timeout", timeout);
        push_member(&mut f, "url", json_string(&self.url));
        let headers = match &self.headers {
            Some(h) => Some(string_pairs_json(h)),
            None => None,
        };
        push_opt_member(&mut f, "headers", headers);
        assert(view_fields(f@) =~= seq![
            ("tools"@, str_array(views_of(self.tools@))),
            ("type"@, Json::Str(self.server_type@)),
        ] + opt_member("timeout"@, opt_u32(self.timeout)) + seq![("url"@, Json::Str(self.url@))]
            + opt_member("headers"@, opt_pairs(self.headers)));
        JsonValue::Object(f)
    }
}

impl McpServerConfig {
    /// JSON form: that of the server it holds, untagged.
    pub open spec fn json(&self) -> Json {
        match self {
            McpServerConfig::Local(c) => c.json(),
            McpServerConfig::Remote(c) => c.json(),
        }
    }

    /// The JSON form sent to the server.
    pub fn to_json(&self) -> (r: JsonValue)
        ensures
            r@ == self.json(),
    {
        match self {
            McpServerConfig::Local(c) => c.to_json(),
            McpServerConfig::Remote(c) => c.to_json(),
        }
    }
}

/// Named MCP servers as the members of a JSON object.
pub open spec fn servers_members(servers: Seq<(String, McpServerConfig)>) -> Seq<(Seq<char>, Json)> {
    servers.map_values(|s: (String, McpServerConfig)| (s.0@, s.1.json()))
}

/// Servers with distinct names become members with distinct keys, as the
/// entries of a map do.
pub proof fn servers_keys_distinct(servers: Seq<(String, McpServerConfig)>)
    requires
        forall|i: int, j: int| 0 <= i < j < servers.len() ==> #[trigger] servers[i].0@ != #[trigger] servers[j].0@,
    ensures
        crate::json::distinct_keys(servers_members(servers)),
{
    let m = servers_members(servers);
    assert forall|i: int, j: int| 0 <= i < j < m.len() implies #[trigger] m[i].0 != #[trigger] m[j].0 by {
        assert(m[i].0 == servers[i].0@ && m[j].0 == servers[j].0@);
    }
}

/// Named MCP servers as a JSON object (`serde_json::to_value` of the map).
pub fn servers_json(servers: &Vec<(String, McpServerConfig)>) -> (r: JsonValue)
    ensures
        r@ == Json::Object(servers_members(servers@)),
{
    let mut f = no_members();
    let mut i: usize = 0;
    while i < servers.len()
        invariant
            i <= servers@.len(),
            view_fields(f@) == servers_members(servers@.take(i as int)),
        decreases servers.len() - i,
    {
        let k = servers[i].0.clone();
        let v = servers[i].1.to_json();
        proof {
            lemma_view_fields_push(f@, (k, v));
        }
        f.push((k, v));
        i = i + 1;
        assert(servers_members(servers@.take(i as int)) =~= servers_members(
            servers@.take(i - 1),
        ).push((servers@[i - 1].0@, servers@[i - 1].1.json())));
    }
    assert(servers@.take(servers@.len() as int) =~= servers@);
    JsonValue::Object(f)
}

/// A custom agent.
#[derive(Debug, Clone)]
pub struct CustomAgentConfig {
    /// Unique name of the agent.
    pub name: String,
    /// Display name.
    pub display_name: Option<String>,
    /// What the agent does.
    pub description: Option<String>,
    /// Tools the agent may use (`None`: all tools).
    pub tools: Option<Vec<String>>,
    /// Prompt of the agent.
    pub prompt: String,
    /// MCP servers of this agent, each name once.
    pub mcp_servers: Option<Vec<(String, McpServerConfig)>>,
    /// Whether the agent is available for model inference.
    pub infer: Option<bool>,
}

/// Context of a tool invocation.
#[derive(Debug, Clone)]
pub struct ToolInvocation {
    pub session_id: String,
    pub tool_call_id: String,
    pub tool_name: String,
    pub arguments: JsonValue,
}

/// Binary payload returned by a tool.
#[derive(Debug, Clone)]
pub struct ToolBinaryResult {
    pub data: String,
    pub mime_type: String,
    pub result_type: String,
    pub description: Option<String>,
}

impl ToolBinaryResult {
    /// JSON form: `data`, `mimeType`, `type`, `description`?.
    pub open spec fn json(&self) -> Json {
        Json::Object(
            seq![
                ("data"@, Json::Str(self.data@)),
                ("mimeType"@, Json::Str(self.mime_type@)),
                ("type"@, Json::Str(self.result_type@)),
            ] + opt_member("description"@, opt_str_json(self.description)),
        )
    }

    /// The JSON form sent to the server.
    pub fn to_json(&self) -> (r: JsonValue)
        ensures
            r@ == self.json(),
    {
        let mut f = no_members();
        push_member(&mut f, "data", json_string(&self.data));
        push_member(&mut f, "mimeType", json_string(&self.mime_type));
        push_member(&mut f, "type", json_string(&self.result_type));
        push_opt_str(&mut f, "description", &self.description);
        assert(view_fields(f@) =~= seq![
            ("data"@, Json::Str(self.data@)),
            ("mimeType"@, Json::Str(self.mime_type@)),
            ("type"@, Json::Str(self.result_type@)),
        ] + opt_member("description"@, opt_str_json(self.description)));
        JsonValue::Object(f)
    }
}

/// Result of a tool invocation.
#[derive(Debug, Clone)]
pub struct ToolResult {
    pub text_result_for_llm: String,
    pub binary_results_for_llm: Option<Vec<ToolBinaryResult>>,
    pub result_type: String,
    pub error: Option<String>,
    pub session_log: Option<String>,
    /// Telemetry members, each name once.
    pub tool_telemetry: Option<Vec<(String, JsonValue)>>,
}

/// The text a failed tool shows the model.
pub open spec fn failure_text() -> Seq<char> {
    "Invoking this tool produced an error. Detailed information is not available."@
}

/// Binary results as JSON.
pub open spec fn binary_results_json(items: Seq<ToolBinaryResult>) -> Json {
    Json::Array(items.map_values(|b: ToolBinaryResult| b.json()))
}

impl ToolResult {
    /// A successful result carrying `text`.
    pub fn success(text: impl IntoText) -> (r: Self)
        ensures
            r.text_result_for_llm@ == text.text(),
            r.binary_results_for_llm is None,
            r.result_type@ == "success"@,
            r.error is None,
            r.session_log is None,
            r.tool_telemetry is None,
    {
        ToolResult {
            text_result_for_llm: text.into_text(),
            binary_results_for_llm: None,
            result_type: String::from_str("success"),
            error: None,
            session_log: None,
            tool_telemetry: None,
        }
    }

    /// A failed result carrying the error text.
    pub fn failure(error: impl IntoText) -> (r: Self)
        ensures
            r.text_result_for_llm@ == failure_text(),
            r.binary_results_for_llm is None,
            r.result_type@ == "failure"@,
            r.error matches Some(e) && e@ == error.text(),
            r.session_log is None,
            r.tool_telemetry is None,
    {
        ToolResult {
            text_result_for_llm: String::from_str(
                "Invoking this tool produced an error. Detailed information is not available.",
            ),
            binary_results_for_llm: None,
            result_type: String::from_str("failure"),
            error: Some(error.into_text()),
            session_log: None,
            tool_telemetry: None,
        }
    }

    /// JSON form: `textResultForLlm`, `binaryResultsForLlm`?, `resultType`,
    /// `error`?, `sessionLog`?, `toolTelemetry`?.
    pub open spec fn json(&self) -> Json {
        Json::Object(
            seq![("textResultForLlm"@, Json::Str(self.text_result_for_llm@))] + opt_member(
                "binaryResultsForLlm"@,
                match self.binary_results_for_llm {
                    Some(b) => Some(binary_results_json(b@)),
                    None => None,
                },
            ) + seq![("resultType"@, Json::Str(self.result_type@))] + opt_member(
                "error"@,
                opt_str_json(self.error),
            ) + opt_member("sessionLog"@, opt_str_json(self.session_log)) + opt_member(
                "toolTelemetry"@,
                match self.tool_telemetry {
                    Some(t) => Some(Json::Object(view_fields(t@))),
                    None => None,
                },
            ),
        )
    }

    /// The JSON form sent to the server.
    pub fn to_json(&self) -> (r: JsonValue)
        ensures
            r@ == self.json(),
    {
        let mut f = no_members();
        push_member(&mut f, "textResultForLlm", json_string(&self.text_result_for_llm));
        let binary = match &self.binary_results_for_llm {
            Some(b) => {
                let mut out: Vec<JsonValue> = Vec::new();
                let mut i: usize = 0;
                assert(view_items(out@) =~= Seq::<Json>::empty());
                while i < b.len()
                    invariant
                        i <= b@.len(),
                        view_items(out@) == b@.take(i as int).map_values(
                            |x: ToolBinaryResult| x.json(),
                        ),
                    decreases b.len() - i,
                {
                    let v = b[i].to_json();
                    proof {
                        lemma_view_items_push(out@, v);
                    }
                    out.push(v);
                    i = i + 1;
                    assert(b@.take(i as int).map_values(|x: ToolBinaryResult| x.json()) =~= b@.take(
                        i - 1,
                    ).map_values(|x: ToolBinaryResult| x.json()).push(b@[i - 1].json()));
                }
                assert(b@.take(b@.len() as int) =~= b@);
                Some(JsonValue::Array(out))
            },
            None => None,
        };
        push_opt_member(&mut f, "binaryResultsForLlm", binary);
        push_member(&mut f, "resultType", json_string(&self.result_type));
        push_opt_str(&mut f, "error", &self.error);
        push_opt_str(&mut f, "sessionLog", &self.session_log);
        let telemetry = match &self.tool_telemetry {
            Some(t) => Some(members_json(t)),
            None => None,
        };
        push_opt_member(&mut f, "toolTelemetry", telemetry);
        assert(view_fields(f@) =~= seq![("textResultForLlm"@, Json::Str(self.text_result_for_llm@))]
            + opt_member(
            "binaryResultsForLlm"@,
            match self.binary_results_for_llm {
                Some(b) => Some(binary_results_json(b@)),
                None => None,
            },
        ) + seq![("resultType"@, Json::Str(self.result_type@))] + opt_member(
            "error"@,
            opt_str_json(self.error),
        ) + opt_member("sessionLog"@, opt_str_json(self.session_log)) + opt_member(
            "toolTelemetry"@,
            match self.tool_telemetry {
                Some(t) => Some(Json::Object(view_fields(t@))),
                None => None,
            },
        ));
        JsonValue::Object(f)
    }
}

/// Custom model provider configuration.
#[derive(Debug, Clone)]
pub struct ProviderConfig {
    /// Provider type: "openai", "azure" or "anthropic".
    pub provider_type: Option<String>,
    /// API format: "completions" or "responses".
    pub wire_api: Option<String>,
    /// API endpoint URL.
    pub base_url: String,
    /// API key.
    pub api_key: Option<String>,
    /// Bearer token (takes precedence over the API key).
    pub bearer_token: Option<String>,
    /// Azure-specific options.
    pub azure: Option<AzureProviderOptions>,
}

/// Azure provider options.
#[derive(Debug, Clone)]
pub struct AzureProviderOptions {
    /// Azure API version.
    pub api_version: Option<String>,
}

/// Options of a message to send.
#[derive(Debug, Clone)]
pub struct MessageOptions {
    /// The message.
    pub prompt: String,
    /// File or directory attachments.
    pub attachments: Option<Vec<Attachment>>,
    /// Delivery mode (default: "enqueue").
    pub mode: Option<String>,
}

/// A file or directory attachment.
#[derive(Debug, Clone)]
pub struct Attachment {
    /// "file" or "directory".
    pub attachment_type: String,
    /// Path of the file or directory.
    pub path: String,
    /// Optional display name.
    pub display_name: Option<String>,
}

impl Attachment {
    /// JSON form: `type`, `path`, `displayName`?.
    pub open spec fn json(&self) -> Json {
        Json::Object(
            seq![("type"@, Json::Str(self.attachment_type@)), ("path"@, Json::Str(self.path@))]
                + opt_member("displayName"@, opt_str_json(self.display_name)),
        )
    }

    /// The JSON form sent to the server.
    pub fn to_json(&self) -> (r: JsonValue)
        ensures
            r@ == self.json(),
    {
        let mut f = no_members();
        push_member(&mut f, "type", json_string(&self.attachment_type));
        push_member(&mut f, "path", json_string(&self.path));
        push_opt_str(&mut f, "displayName", &self.display_name);
        assert(view_fields(f@) =~= seq![
            ("type"@, Json::Str(self.attachment_type@)),
            ("path"@, Json::Str(self.path@)),
        ] + opt_member("displayName"@, opt_str_json(self.display_name)));
        JsonValue::Object(f)
    }
}

/// Attachments as a JSON array.
pub open spec fn attachments_json(items: Seq<Attachment>) -> Json {
    Json::Array(items.map_values(|a: Attachment| a.json()))
}

/// `x` carries attachment `a`: its type, its path, and its display name when
/// it has one.
pub open spec fn carries_attachment(x: Json, a: Attachment) -> bool {
    &&& crate::json::get(x, "type"@) == Some(Json::Str(a.attachment_type@))
    &&& crate::json::get(x, "path"@) == Some(Json::Str(a.path@))
    &&& crate::json::get(x, "displayName"@) == opt_str_json(a.display_name)
}

/// `x` is an array that carries `items`, one entry per attachment, in order.
pub open spec fn carries_attachments(x: Json, items: Seq<Attachment>) -> bool {
    x matches Json::Array(xs) && xs.len() == items.len() && forall|i: int|
        0 <= i < items.len() ==> carries_attachment(#[trigger] xs[i], items[i])
}

/// Every attachment is sent, in order, each with its type, path and
/// display name.
pub proof fn attachments_all_sent(items: Seq<Attachment>)
    ensures
        carries_attachments(attachments_json(items), items),
{
    broadcast use crate::json::lemma_lookup_append, crate::json::lemma_lookup_single, crate::json::lemma_lookup_empty;
    reveal_strlit("type");
    reveal_strlit("path");
    reveal_strlit("displayName");
    assert("type"@[0] != "path"@[0]);
    assert("type"@.len() != "displayName"@.len());
    assert("path"@.len() != "displayName"@.len());
    let xs = items.map_values(|a: Attachment| a.json());
    assert forall|i: int| 0 <= i < items.len() implies carries_attachment(#[trigger] xs[i], items[i]) by {
        let a = items[i];
        assert(xs[i] == a.json());
        assert(seq![("type"@, Json::Str(a.attachment_type@)), ("path"@, Json::Str(a.path@))] =~= seq![
            ("type"@, Json::Str(a.attachment_type@)),
        ] + seq![("path"@, Json::Str(a.path@))]);
    }
}

/// Attachments as a JSON array (`json!(attachments)`).
pub fn attachments_to_json(items: &Vec<Attachment>) -> (r: JsonValue)
    ensures
        r@ == attachments_json(items@),
        carries_attachments(r@, items@),
{
    proof {
        attachments_all_sent(items@);
    }
    let mut out: Vec<JsonValue> = Vec::new();
    let mut i: usize = 0;
    assert(view_items(out@) =~= Seq::<Json>::empty());
    while i < items.len()
        invariant
            i <= items@.len(),
            view_items(out@) == items@.take(i as int).map_values(|a: Attachment| a.json()),
        decreases items.len() - i,
    {
        let v = items[i].to_json();
        proof {
            lemma_view_items_push(out@, v);
        }
        out.push(v);
        i = i + 1;
        assert(items@.take(i as int).map_values(|a: Attachment| a.json()) =~= items@.take(
            i - 1,
        ).map_values(|a: Attachment| a.json()).push(items@[i - 1].json()));
    }
    assert(items@.take(items@.len() as int) =~= items@);
    JsonValue::Array(out)
}

/// Response to a ping.
#[derive(Debug, Clone)]
pub struct PingResponse {
    pub message: String,
    pub timestamp: i64,
    pub protocol_version: Option<i32>,
}

/// Response to `session.create`.
#[derive(Debug, Clone)]
pub struct SessionCreateResponse {
    pub session_id: String,
}

/// Response to `session.send`.
#[derive(Debug, Clone)]
pub struct SessionSendResponse {
    pub message_id: String,
}

} // verus!

verus! {

/// A tool the server may invoke, with its handler.
#[derive(Clone)]
pub struct Tool<H> {
    pub name: String,
    pub description: Option<String>,
    /// JSON schema of the tool's arguments.
    pub parameters: Option<JsonValue>,
    pub handler: H,
}

/// Configuration of a new session.
#[derive(Clone)]
pub struct SessionConfig<H, P> {
    /// Custom session id.
    pub session_id: Option<String>,
    /// Model to use.
    pub model: Option<String>,
    /// Tools exposed to the server.
    pub tools: Vec<Tool<H>>,
    /// System message customisation.
    pub system_message: Option<SystemMessageConfig>,
    /// Tools to allow (takes precedence over `excluded_tools`).
    pub available_tools: Option<Vec<String>>,
    /// Tools to disable.
    pub excluded_tools: Option<Vec<String>>,
    /// Handler of permission requests.
    pub on_permission_request: Option<P>,
    /// Stream assistant message and reasoning chunks.
    pub streaming: bool,
    /// Custom model provider.
    pub provider: Option<ProviderConfig>,
    /// MCP servers, each name once.
    pub mcp_servers: Option<Vec<(String, McpServerConfig)>>,
    /// Custom agents.
    pub custom_agents: Option<Vec<CustomAgentConfig>>,
}

/// Configuration for resuming an existing session.
#[derive(Clone)]
pub struct ResumeSessionConfig<H, P> {
    /// Tools exposed to the server.
    pub tools: Vec<Tool<H>>,
    /// Custom model provider.
    pub provider: Option<ProviderConfig>,
    /// Handler of permission requests.
    pub on_permission_request: Option<P>,
    /// Stream assistant message and reasoning chunks.
    pub streaming: bool,
    /// MCP servers, each name once.
    pub mcp_servers: Option<Vec<(String, McpServerConfig)>>,
    /// Custom agents.
    pub custom_agents: Option<Vec<CustomAgentConfig>>,
}

impl<H, P> Default for SessionConfig<H, P> {
    fn default() -> (r: Self)
        ensures
            r.session_id is None,
            r.model is None,
            r.tools@.len() == 0,
            r.system_message is None,
            r.available_tools is None,
            r.excluded_tools is None,
            r.on_permission_request is None,
            !r.streaming,
            r.provider is None,
            r.mcp_servers is None,
            r.custom_agents is None,
    {
        SessionConfig {
            session_id: None,
            model: None,
            tools: Vec::new(),
            system_message: None,
            available_tools: None,
            excluded_tools: None,
            on_permission_request: None,
            streaming: false,
            provider: None,
            mcp_servers: None,
            custom_agents: None,
        }
    }
}

impl<H, P> Default for ResumeSessionConfig<H, P> {
    fn default() -> (r: Self)
        ensures
            r.tools@.len() == 0,
            r.provider is None,
            r.on_permission_request is None,
            !r.streaming,
            r.mcp_servers is None,
            r.custom_agents is None,
    {
        ResumeSessionConfig {
            tools: Vec::new(),
            provider: None,
            on_permission_request: None,
            streaming: false,
            mcp_servers: None,
            custom_agents: None,
        }
    }
}

} // verus!

