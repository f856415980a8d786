//! Decisions of the client: where the server is, how it is started, what the
//! session requests carry, and how the connection state evolves.
use crate::error::{CopilotError, Result};
use crate::session::Registry;
use crate::json::{as_i64, get, get_i64, str_field};
use crate::json::{
    json_str_array, json_string, lemma_view_items_push, no_members, opt_member, opt_str_json,
    push_member, push_opt_member, push_opt_str, str_array, view_fields, view_items, views_of, Json,
    JsonValue,
};
use crate::types::{
    ClientOptions, ClientOptionsView, ConnectionState, PingResponse, opt_str_array, servers_json, servers_members, CustomAgentConfig, McpServerConfig, ProviderConfig,
    ResumeSessionConfig, SessionConfig, Tool,
};
use crate::text::{
    chars_of, decimal, has_prefix, push_decimal, range_equals, parse_unsigned, parse_unsigned_range, push_str, skip_repeated_prefix,
    string_of, trim_start_matches,
};
use vstd::prelude::*;

verus! {

// ---------------------------------------------------------------------------
// Server address
// ---------------------------------------------------------------------------

/// Outcome of reading a server URL.
pub enum CliUrl {
    /// The host and port to connect to.
    Address(Seq<char>, u16),
    /// The URL is neither a port nor `host:port`; carries the URL without scheme.
    BadFormat(Seq<char>),
    /// The part after `:` is not a port; carries the URL without scheme.
    BadPort(Seq<char>),
}

/// The URL with every leading `http://` and then every leading `https://` removed.
pub open spec fn strip_scheme(url: Seq<char>) -> Seq<char> {
    trim_start_matches(trim_start_matches(url, "http://"@), "https://"@)
}

/// `u[i]` is the only `:` of `u`.
pub open spec fn only_colon_at(u: Seq<char>, i: int) -> bool {
    &&& 0 <= i < u.len()
    &&& u[i] == ':'
    &&& forall|j: int| 0 <= j < u.len() && j != i ==> u[j] != ':'
}

/// The port grammar: `str::parse::<u16>`.
pub open spec fn parse_port(s: Seq<char>) -> Option<u16> {
    match parse_unsigned(s, 65535) {
        Some(v) => Some(v as u16),
        None => None,
    }
}

/// Where a server URL points: a bare port means `localhost`; otherwise the
/// URL must be `host:port` with exactly one `:`, and an empty host means
/// `localhost`.
pub open spec fn cli_url_target(url: Seq<char>) -> CliUrl {
    let u = strip_scheme(url);
    match parse_port(u) {
        Some(p) => CliUrl::Address("localhost"@, p),
        None => if exists|i: int| only_colon_at(u, i) {
            let i = choose|i: int| only_colon_at(u, i);
            let host = u.take(i);
            match parse_port(u.skip(i + 1)) {
                Some(p) => CliUrl::Address(
                    if host.len() == 0 {
                        "localhost"@
                    } else {
                        host
                    },
                    p,
                ),
                None => CliUrl::BadPort(u),
            }
        } else {
            CliUrl::BadFormat(u)
        },
    }
}

/// Text of the error for a URL that is not `host:port`.
pub open spec fn bad_format_text(u: Seq<char>) -> Seq<char> {
    "Invalid CLI URL format: "@ + u + ". Expected 'host:port' or 'port'"@
}

/// Text of the error for a URL whose port does not parse.
pub open spec fn bad_port_text(u: Seq<char>) -> Seq<char> {
    "Invalid port in CLI URL: "@ + u
}

/// Reads the host and port of a server URL: `"8080"`, `"host:8080"` or
/// `"http://host:8080"`.
pub fn parse_cli_url(url: &str) -> (r: Result<(String, u16)>)
    ensures
        match cli_url_target(url@) {
            CliUrl::Address(h, p) => r matches Ok((rh, rp)) && rh@ == h && rp == p,
            CliUrl::BadFormat(u) => r matches Err(CopilotError::InvalidUrl(m)) && m@
                == bad_format_text(u),
            CliUrl::BadPort(u) => r matches Err(CopilotError::InvalidUrl(m)) && m@ == bad_port_text(
                u,
            ),
        },
{
    let cs = chars_of(url);
    let http = chars_of("http://");
    let https = chars_of("https://");
    proof {
        reveal_strlit("http://");
        reveal_strlit("https://");
        assert(cs@.subrange(0, cs@.len() as int) =~= cs@);
    }
    let a = skip_repeated_prefix(&cs, 0, cs.len(), &http);
    let b = skip_repeated_prefix(&cs, a, cs.len(), &https);
    let n = cs.len();
    let ghost u = cs@.subrange(b as int, n as int);
    assert(u == strip_scheme(url@));
    if let Some(p) = parse_unsigned_range(&cs, b, n, 65535) {
        return Ok((String::from_str("localhost"), p as u16));
    }
    // Find the colons.

    let mut colons: usize = 0;
    let mut at: usize = b;
    let mut i = b;
    while i < n
        invariant
            b <= i <= n == cs@.len(),
            u == cs@.subrange(b as int, n as int),
            colons <= i - b,
            colons == 0 ==> forall|j: int| b <= j < i ==> cs@[j] != ':',
            colons >= 1 ==> b <= at < i && cs@[at as int] == ':',
            colons == 1 ==> forall|j: int| b <= j < i && j != at ==> cs@[j] != ':',
            colons >= 2 ==> exists|j: int| b <= j < i && j != at && cs@[j] == ':',
        decreases n - i,
    {
        if cs[i] == ':' {
            if colons == 0 {
                at = i;
            }
            colons = colons + 1;
        }
        i = i + 1;
    }
    let u_str = string_of(&cs, b, n);
    if colons != 1 {
        proof {
            if exists|k: int| only_colon_at(u, k) {
                let k = choose|k: int| only_colon_at(u, k);
                if colons == 0 {
                    assert(cs@[b + k] == u[k]);
                } else {
                    let j = choose|j: int| b <= j < n && j != at && cs@[j] == ':';
                    assert(u[j - b] == ':');
                    assert(u[at - b] == ':');
                }
            }
        }
        let mut m = String::from_str("Invalid CLI URL format: ");
        push_str(&mut m, u_str.as_str());
        push_str(&mut m, ". Expected 'host:port' or 'port'");
        return Err(CopilotError::InvalidUrl(m));
    }
    let ghost k = (at - b) as int;
    proof {
        assert(only_colon_at(u, k)) by {
            assert forall|j: int| 0 <= j < u.len() && j != k implies u[j] != ':' by {
                assert(u[j] == cs@[b + j]);
            }
        }
        assert forall|j: int| only_colon_at(u, j) implies j == k by {
            if j != k {
                assert(u[k] == ':');
            }
        }
        assert(u.take(k) =~= cs@.subrange(b as int, at as int));
        assert(u.skip(k + 1) =~= cs@.subrange(at + 1, n as int));
    }
    match parse_unsigned_range(&cs, at + 1, n, 65535) {
        Some(p) => {
            let host = if at == b {
                String::from_str("localhost")
            } else {
                string_of(&cs, b, at)
            };
            Ok((host, p as u16))
        },
        None => {
            let mut m = String::from_str("Invalid port in CLI URL: ");
            push_str(&mut m, u_str.as_str());
            Err(CopilotError::InvalidUrl(m))
        },
    }
}

} // verus!

verus! {

// ---------------------------------------------------------------------------
// Session request parameters
// ---------------------------------------------------------------------------

/// The `provider` parameter of a session request.
pub open spec fn provider_params(p: ProviderConfig) -> Json {
    Json::Object(
        seq![("baseUrl"@, Json::Str(p.base_url@))] + opt_member("type"@, opt_str_json(p.provider_type))
            + opt_member("wireApi"@, opt_str_json(p.wire_api)) + opt_member(
            "apiKey"@,
            opt_str_json(p.api_key),
        ) + opt_member("bearerToken"@, opt_str_json(p.bearer_token)) + opt_member(
            "azure"@,
            match p.azure {
                Some(a) => Some(Json::Object(opt_member("apiVersion"@, opt_str_json(a.api_version)))),
                None => None,
            },
        ),
    )
}

/// Builds the `provider` parameter of a session request.
pub fn build_provider_params(provider: &ProviderConfig) -> (r: JsonValue)
    ensures
        r@ == provider_params(*provider),
{
    let mut f = no_members();
    push_member(&mut f, "baseUrl", json_string(&provider.base_url));
    push_opt_str(&mut f, "type", &provider.provider_type);
    push_opt_str(&mut f, "wireApi", &provider.wire_api);
    push_opt_str(&mut f, "apiKey", &provider.api_key);
    push_opt_str(&mut f, "bearerToken", &provider.bearer_token);
    let azure = match &provider.azure {
        Some(a) => {
            let mut af = no_members();
            push_opt_str(&mut af, "apiVersion", &a.api_version);
            assert(view_fields(af@) =~= opt_member("apiVersion"@, opt_str_json(a.api_version)));
            Some(JsonValue::Object(af))
        },
        None => None,
    };
    push_opt_member(&mut f, "azure", azure);
    assert(view_fields(f@) =~= seq![("baseUrl"@, Json::Str(provider.base_url@))] + opt_member(
        "type"@,
        opt_str_json(provider.provider_type),
    ) + opt_member("wireApi"@, opt_str_json(provider.wire_api)) + opt_member(
        "apiKey"@,
        opt_str_json(provider.api_key),
    ) + opt_member("bearerToken"@, opt_str_json(provider.bearer_token)) + opt_member(
        "azure"@,
        match provider.azure {
            Some(a) => Some(Json::Object(opt_member("apiVersion"@, opt_str_json(a.api_version)))),
            None => None,
        },
    ));
    JsonValue::Object(f)
}

/// The JSON form of one custom agent in a session request.
pub open spec fn agent_params(a: CustomAgentConfig) -> Json {
    Json::Object(
        seq![("name"@, Json::Str(a.name@)), ("prompt"@, Json::Str(a.prompt@))] + opt_member(
            "displayName"@,
            opt_str_json(a.display_name),
        ) + opt_member("description"@, opt_str_json(a.description)) + opt_member(
            "tools"@,
            opt_str_array(a.tools),
        ) + opt_member(
            "mcpServers"@,
            match a.mcp_servers {
                Some(s) => Some(Json::Object(servers_members(s@))),
                None => None,
            },
        ) + opt_member(
            "infer"@,
            match a.infer {
                Some(b) => Some(Json::Bool(b)),
                None => None,
            },
        ),
    )
}

/// The `customAgents` parameter of a session request.
pub open spec fn agents_params(agents: Seq<CustomAgentConfig>) -> Json {
    Json::Array(agents.map_values(|a: CustomAgentConfig| agent_params(a)))
}

fn agent_to_json(agent: &CustomAgentConfig) -> (r: JsonValue)
    ensures
        r@ == agent_params(*agent),
{
    let mut f = no_members();
    push_member(&mut f, "name", json_string(&agent.name));
    push_member(&mut f, "prompt", json_string(&agent.prompt));
    push_opt_str(&mut f, "displayName", &agent.display_name);
    push_opt_str(&mut f, "description", &agent.description);
    let tools = match &agent.tools {
        Some(t) => Some(json_str_array(t)),
        None => None,
    };
    push_opt_member(&mut f, "tools", tools);
    let servers = match &agent.mcp_servers {
        Some(s) => Some(servers_json(s)),
        None => None,
    };
    push_opt_member(&mut f, "mcpServers", servers);
    let infer = match agent.infer {
        Some(b) => Some(JsonValue::Bool(b)),
        None => None,
    };
    push_opt_member(&mut f, "infer", infer);
    assert(view_fields(f@) =~= seq![
        ("name"@, Json::Str(agent.name@)),
        ("prompt"@, Json::Str(agent.prompt@)),
    ] + opt_member("displayName"@, opt_str_json(agent.display_name)) + opt_member(
        "description"@,
        opt_str_json(agent.description),
    ) + opt_member("tools"@, opt_str_array(agent.tools)) + opt_member(
        "mcpServers"@,
        match agent.mcp_servers {
            Some(s) => Some(Json::Object(servers_members(s@))),
            None => None,
        },
    ) + opt_member(
        "infer"@,
        match agent.infer {
            Some(b) => Some(Json::Bool(b)),
            None => None,
        },
    ));
    JsonValue::Object(f)
}

/// Builds the `customAgents` parameter of a session request (always succeeds).
pub fn build_custom_agents_params(agents: &Vec<CustomAgentConfig>) -> (r: Result<JsonValue>)
    ensures
        r matches Ok(v) && v@ == agents_params(agents@),
{
    let mut out: Vec<JsonValue> = Vec::new();
    let mut i: usize = 0;
    assert(view_items(out@) =~= Seq::<Json>::empty());
    while i < agents.len()
        invariant
            i <= agents@.len(),
            view_items(out@) == agents@.take(i as int).map_values(
                |a: CustomAgentConfig| agent_params(a),
            ),
        decreases agents.len() - i,
    {
        let v = agent_to_json(&agents[i]);
        proof {
            lemma_view_items_push(out@, v);
        }
        out.push(v);
        i = i + 1;
        assert(agents@.take(i as int).map_values(|a: CustomAgentConfig| agent_params(a))
            =~= agents@.take(i - 1).map_values(|a: CustomAgentConfig| agent_params(a)).push(
            agent_params(agents@[i - 1]),
        ));
    }
    assert(agents@.take(agents@.len() as int) =~= agents@);
    Ok(JsonValue::Array(out))
}

/// The declaration of one tool in a session request: `name`, `description`
/// (`null` when absent) and `parameters` when present.
pub open spec fn tool_declaration<H>(t: Tool<H>) -> Json {
    Json::Object(
        seq![
            ("name"@, Json::Str(t.name@)),
            ("description"@, crate::json::opt_str(t.description.deep_view())),
        ] + opt_member(
            "parameters"@,
            match t.parameters {
                Some(p) => Some(p@),
                None => None,
            },
        ),
    )
}

/// The `tools` parameter of a session request.
pub open spec fn tool_declarations<H>(tools: Seq<Tool<H>>) -> Json {
    Json::Array(tools.map_values(|t: Tool<H>| tool_declaration(t)))
}

/// Builds the `tools` parameter of a session request.
pub fn build_tool_declarations<H>(tools: &Vec<Tool<H>>) -> (r: JsonValue)
    ensures
        r@ == tool_declarations(tools@),
{
    let mut out: Vec<JsonValue> = Vec::new();
    let mut i: usize = 0;
    assert(view_items(out@) =~= Seq::<Json>::empty());
    while i < tools.len()
        invariant
            i <= tools@.len(),
            view_items(out@) == tools@.take(i as int).map_values(|t: Tool<H>| tool_declaration(t)),
        decreases tools.len() - i,
    {
        let t = &tools[i];
        let mut f = no_members();
        push_member(&mut f, "name", json_string(&t.name));
        let description = match &t.description {
            Some(d) => json_string(d),
            None => JsonValue::Null,
        };
        push_member(&mut f, "description", description);
        let parameters = match &t.parameters {
            Some(p) => Some(p.copy()),
            None => None,
        };
        push_opt_member(&mut f, "parameters", parameters);
        assert(view_fields(f@) =~= seq![
            ("name"@, Json::Str(t.name@)),
            ("description"@, crate::json::opt_str(t.description.deep_view())),
        ] + opt_member(
            "parameters"@,
            match t.parameters {
                Some(p) => Some(p@),
                None => None,
            },
        ));
        let v = JsonValue::Object(f);
        proof {
            lemma_view_items_push(out@, v);
        }
        out.push(v);
        i = i + 1;
        assert(tools@.take(i as int).map_values(|t: Tool<H>| tool_declaration(t)) =~= tools@.take(
            i - 1,
        ).map_values(|t: Tool<H>| tool_declaration(t)).push(tool_declaration(tools@[i - 1])));
    }
    assert(tools@.take(tools@.len() as int) =~= tools@);
    JsonValue::Array(out)
}

/// The member `key: value` when `cond` holds.
pub open spec fn member_if(cond: bool, key: Seq<char>, value: Json) -> Seq<(Seq<char>, Json)> {
    if cond {
        seq![(key, value)]
    } else {
        Seq::empty()
    }
}

/// The parameters of `session.create` for a configuration.
pub open spec fn create_session_params<H, P>(cfg: Option<SessionConfig<H, P>>) -> Json {
    match cfg {
        None => Json::Object(Seq::empty()),
        Some(c) => Json::Object(
            opt_member("sessionId"@, opt_str_json(c.session_id)) + opt_member(
                "model"@,
                opt_str_json(c.model),
            ) + member_if(c.tools@.len() > 0, "tools"@, tool_declarations(c.tools@)) + opt_member(
                "systemMessage"@,
                match c.system_message {
                    Some(m) => Some(m.json()),
                    None => None,
                },
            ) + opt_member("availableTools"@, opt_str_array(c.available_tools)) + opt_member(
                "excludedTools"@,
                opt_str_array(c.excluded_tools),
            ) + member_if(c.streaming, "streaming"@, Json::Bool(true)) + opt_member(
                "provider"@,
                match c.provider {
                    Some(p) => Some(provider_params(p)),
                    None => None,
                },
            ) + member_if(c.on_permission_request is Some, "requestPermission"@, Json::Bool(true))
                + opt_member(
                "mcpServers"@,
                match c.mcp_servers {
                    Some(s) => Some(Json::Object(servers_members(s@))),
                    None => None,
                },
            ) + opt_member(
                "customAgents"@,
                match c.custom_agents {
                    Some(a) => Some(agents_params(a@)),
                    None => None,
                },
            ),
        ),
    }
}

/// Appends `key: true` when `cond` holds.
fn push_flag(f: &mut Vec<(String, JsonValue)>, cond: bool, key: &str)
    ensures
        view_fields(final(f)@) == view_fields(old(f)@) + member_if(cond, key@, Json::Bool(true)),
{
    if cond {
        push_member(f, key, JsonValue::Bool(true));
    }
    assert(view_fields(f@) =~= view_fields(old(f)@) + member_if(cond, key@, Json::Bool(true)));
}

/// Appends the `tools` declarations when there are tools.
fn push_tools<H>(f: &mut Vec<(String, JsonValue)>, tools: &Vec<Tool<H>>)
    ensures
        view_fields(final(f)@) == view_fields(old(f)@) + member_if(
            tools@.len() > 0,
            "tools"@,
            tool_declarations(tools@),
        ),
{
    if tools.len() > 0 {
        push_member(f, "tools", build_tool_declarations(tools));
    }
    assert(view_fields(f@) =~= view_fields(old(f)@) + member_if(
        tools@.len() > 0,
        "tools"@,
        tool_declarations(tools@),
    ));
}

/// Appends `provider`, `requestPermission`, `mcpServers` and `customAgents`.
fn push_session_extras(
    f: &mut Vec<(String, JsonValue)>,
    provider: &Option<ProviderConfig>,
    wants_permission: bool,
    mcp_servers: &Option<Vec<(String, McpServerConfig)>>,
    custom_agents: &Option<Vec<CustomAgentConfig>>,
)
    ensures
        view_fields(final(f)@) == view_fields(old(f)@) + opt_member(
            "provider"@,
            match *provider {
                Some(p) => Some(provider_params(p)),
                None => None,
            },
        ) + member_if(wants_permission, "requestPermission"@, Json::Bool(true)) + opt_member(
            "mcpServers"@,
            match *mcp_servers {
                Some(s) => Some(Json::Object(servers_members(s@))),
                None => None,
            },
        ) + opt_member(
            "customAgents"@,
            match *custom_agents {
                Some(a) => Some(agents_params(a@)),
                None => None,
            },
        ),
{
    let p = match provider {
        Some(p) => Some(build_provider_params(p)),
        None => None,
    };
    push_opt_member(f, "provider", p);
    push_flag(f, wants_permission, "requestPermission");
    let s = match mcp_servers {
        Some(s) => Some(servers_json(s)),
        None => None,
    };
    push_opt_member(f, "mcpServers", s);
    let a = match custom_agents {
        Some(a) => match build_custom_agents_params(a) {
            Ok(v) => Some(v),
            Err(_) => None,
        },
        None => None,
    };
    push_opt_member(f, "customAgents", a);
    assert(view_fields(f@) =~= view_fields(old(f)@) + opt_member(
        "provider"@,
        match *provider {
            Some(p) => Some(provider_params(p)),
            None => None,
        },
    ) + member_if(wants_permission, "requestPermission"@, Json::Bool(true)) + opt_member(
        "mcpServers"@,
        match *mcp_servers {
            Some(s) => Some(Json::Object(servers_members(s@))),
            None => None,
        },
    ) + opt_member(
        "customAgents"@,
        match *custom_agents {
            Some(a) => Some(agents_params(a@)),
            None => None,
        },
    ));
}

/// Builds the parameters of `session.create`.
pub fn build_create_session_params<H, P>(config: &Option<SessionConfig<H, P>>) -> (r: JsonValue)
    ensures
        r@ == create_session_params(*config),
        config matches Some(c) ==> {
            &&& lists_names(r@, "availableTools"@, c.available_tools)
            &&& lists_names(r@, "excludedTools"@, c.excluded_tools)
            &&& declares_tools(r@, c.tools@)
        },
{
    let mut f = no_members();
    match config {
        None => {},
        Some(c) => {
            push_opt_str(&mut f, "sessionId", &c.session_id);
            push_opt_str(&mut f, "model", &c.model);
            push_tools(&mut f, &c.tools);
            let sm = match &c.system_message {
                Some(m) => Some(m.to_json()),
                None => None,
            };
            push_opt_member(&mut f, "systemMessage", sm);
            let avail = match &c.available_tools {
                Some(a) => Some(json_str_array(a)),
                None => None,
            };
            push_opt_member(&mut f, "availableTools", avail);
            let excl = match &c.excluded_tools {
                Some(a) => Some(json_str_array(a)),
                None => None,
            };
            push_opt_member(&mut f, "excludedTools", excl);
            push_flag(&mut f, c.streaming, "streaming");
            push_session_extras(
                &mut f,
                &c.provider,
                c.on_permission_request.is_some(),
                &c.mcp_servers,
                &c.custom_agents,
            );
            assert(view_fields(f@) =~= opt_member("sessionId"@, opt_str_json(c.session_id))
                + opt_member("model"@, opt_str_json(c.model)) + member_if(
                c.tools@.len() > 0,
                "tools"@,
                tool_declarations(c.tools@),
            ) + opt_member(
                "systemMessage"@,
                match c.system_message {
                    Some(m) => Some(m.json()),
                    None => None,
                },
            ) + opt_member("availableTools"@, opt_str_array(c.available_tools)) + opt_member(
                "excludedTools"@,
                opt_str_array(c.excluded_tools),
            ) + member_if(c.streaming, "streaming"@, Json::Bool(true)) + opt_member(
                "provider"@,
                match c.provider {
                    Some(p) => Some(provider_params(p)),
                    None => None,
                },
            ) + member_if(c.on_permission_request is Some, "requestPermission"@, Json::Bool(true))
                + opt_member(
                "mcpServers"@,
                match c.mcp_servers {
                    Some(s) => Some(Json::Object(servers_members(s@))),
                    None => None,
                },
            ) + opt_member(
                "customAgents"@,
                match c.custom_agents {
                    Some(a) => Some(agents_params(a@)),
                    None => None,
                },
            ));
        },
    }
    let r = JsonValue::Object(f);
    proof {
        if let Some(c) = config {
            create_session_available_tools(*c);
            create_session_excluded_tools(*c);
            create_session_declares_tools(*c);
        }
    }
    r
}

/// The parameters of `session.resume` for a session id and configuration.
pub open spec fn resume_session_params<H, P>(
    session_id: Seq<char>,
    cfg: Option<ResumeSessionConfig<H, P>>,
) -> Json {
    match cfg {
        None => Json::Object(seq![("sessionId"@, Json::Str(session_id))]),
        Some(c) => Json::Object(
            seq![("sessionId"@, Json::Str(session_id))] + member_if(
                c.tools@.len() > 0,
                "tools"@,
                tool_declarations(c.tools@),
            ) + opt_member(
                "provider"@,
                match c.provider {
                    Some(p) => Some(provider_params(p)),
                    None => None,
                },
            ) + member_if(c.streaming, "streaming"@, Json::Bool(true)) + member_if(
                c.on_permission_request is Some,
                "requestPermission"@,
                Json::Bool(true),
            ) + opt_member(
                "mcpServers"@,
                match c.mcp_servers {
                    Some(s) => Some(Json::Object(servers_members(s@))),
                    None => None,
                },
            ) + opt_member(
                "customAgents"@,
                match c.custom_agents {
                    Some(a) => Some(agents_params(a@)),
                    None => None,
                },
            ),
        ),
    }
}

/// Builds the parameters of `session.resume`.
pub fn build_resume_session_params<H, P>(
    session_id: &String,
    config: &Option<ResumeSessionConfig<H, P>>,
) -> (r: JsonValue)
    ensures
        r@ == resume_session_params(session_id@, *config),
        get(r@, "sessionId"@) == Some(Json::Str(session_id@)),
        config matches Some(c) ==> declares_tools(r@, c.tools@),
{
    let mut f = no_members();
    push_member(&mut f, "sessionId", json_string(session_id));
    match config {
        None => {
            assert(view_fields(f@) =~= seq![("sessionId"@, Json::Str(session_id@))]);
        },
        Some(c) => {
            push_tools(&mut f, &c.tools);
            let p = match &c.provider {
                Some(p) => Some(build_provider_params(p)),
                None => None,
            };
            push_opt_member(&mut f, "provider", p);
            push_flag(&mut f, c.streaming, "streaming");
            push_flag(&mut f, c.on_permission_request.is_some(), "requestPermission");
            let s = match &c.mcp_servers {
                Some(s) => Some(servers_json(s)),
                None => None,
            };
            push_opt_member(&mut f, "mcpServers", s);
            let a = match &c.custom_agents {
                Some(a) => match build_custom_agents_params(a) {
                    Ok(v) => Some(v),
                    Err(_) => None,
                },
                None => None,
            };
            push_opt_member(&mut f, "customAgents", a);
            assert(view_fields(f@) =~= seq![("sessionId"@, Json::Str(session_id@))] + member_if(
                c.tools@.len() > 0,
                "tools"@,
                tool_declarations(c.tools@),
            ) + opt_member(
                "provider"@,
                match c.provider {
                    Some(p) => Some(provider_params(p)),
                    None => None,
                },
            ) + member_if(c.streaming, "streaming"@, Json::Bool(true)) + member_if(
                c.on_permission_request is Some,
                "requestPermission"@,
                Json::Bool(true),
            ) + opt_member(
                "mcpServers"@,
                match c.mcp_servers {
                    Some(s) => Some(Json::Object(servers_members(s@))),
                    None => None,
                },
            ) + opt_member(
                "customAgents"@,
                match c.custom_agents {
                    Some(a) => Some(agents_params(a@)),
                    None => None,
                },
            ));
        },
    }
    let r = JsonValue::Object(f);
    proof {
        if let Some(c) = config {
            resume_session_declares_tools(session_id@, *c);
        }
    }
    r
}

} // verus!

verus! {

// ---------------------------------------------------------------------------
// Starting the CLI server
// ---------------------------------------------------------------------------

/// `s` ends with `p`.
pub open spec fn has_suffix(s: Seq<char>, p: Seq<char>) -> bool {
    p.len() <= s.len() && s.skip(s.len() - p.len()) == p
}

/// The arguments of the CLI server: `--server --log-level <level>`, then
/// `--stdio` for the stdio transport, or `--port <port>` for TCP when a port
/// is set.
pub open spec fn server_args(o: ClientOptions) -> Seq<Seq<char>> {
    let level = match o.log_level {
        Some(l) => l@,
        None => "info"@,
    };
    seq!["--server"@, "--log-level"@, level] + if o.use_stdio {
        seq!["--stdio"@]
    } else {
        match o.port {
            Some(p) => seq!["--port"@, decimal(p as nat)],
            None => Seq::empty(),
        }
    }
}

/// The program and arguments that start the CLI server: the CLI itself, or
/// `node` running it when its path ends in `.js`.
pub open spec fn server_command(o: ClientOptions) -> Option<(Seq<char>, Seq<Seq<char>>)> {
    match o.cli_path {
        None => None,
        Some(path) => if has_suffix(path@, ".js"@) {
            Some(("node"@, seq![path@] + server_args(o)))
        } else {
            Some((path@, server_args(o)))
        },
    }
}

/// Decides how the CLI server is started.
pub fn cli_command(options: &ClientOptions) -> (r: Result<(String, Vec<String>)>)
    ensures
        match server_command(*options) {
            Some((program, args)) => r matches Ok((p, a)) && p@ == program && views_of(a@) == args,
            None => r matches Err(CopilotError::ServerStartFailed(m)) && m@
                == "No CLI path specified"@,
        },
{
    let path = match &options.cli_path {
        Some(p) => p,
        None => {
            return Err(CopilotError::ServerStartFailed(String::from_str("No CLI path specified")));
        },
    };
    let mut args: Vec<String> = Vec::new();
    args.push(String::from_str("--server"));
    args.push(String::from_str("--log-level"));
    let level = match &options.log_level {
        Some(l) => l.clone(),
        None => String::from_str("info"),
    };
    args.push(level);
    if options.use_stdio {
        args.push(String::from_str("--stdio"));
    } else if let Some(port) = options.port {
        args.push(String::from_str("--port"));
        let mut p = String::new();
        push_decimal(&mut p, port as u64);
        args.push(p);
    }
    assert(views_of(args@) =~= server_args(*options));
    let cs = chars_of(path.as_str());
    let js = chars_of(".js");
    proof {
        reveal_strlit(".js");
    }
    let n = cs.len();
    let is_js = n >= 3 && range_equals(&cs, n - 3, n, &js);
    assert(is_js == has_suffix(path@, ".js"@)) by {
        if n >= 3 {
            assert(cs@.subrange(n - 3, n as int) =~= path@.skip(path@.len() - 3));
        }
    }
    if is_js {
        let mut node_args: Vec<String> = Vec::new();
        node_args.push(path.clone());
        let mut i: usize = 0;
        while i < args.len()
            invariant
                i <= args@.len(),
                views_of(node_args@) == seq![path@] + views_of(args@.take(i as int)),
            decreases args.len() - i,
        {
            let ghost before = node_args@;
            node_args.push(args[i].clone());
            i = i + 1;
            assert(views_of(node_args@) =~= views_of(before).push(args@[i - 1]@));
            assert(args@.take(i as int) =~= args@.take(i - 1).push(args@[i - 1]));
            assert(views_of(args@.take(i as int)) =~= views_of(args@.take(i - 1)).push(
                args@[i - 1]@,
            ));
            assert(views_of(node_args@) =~= seq![path@] + views_of(args@.take(i as int)));
        }
        assert(args@.take(args@.len() as int) =~= args@);
        Ok((String::from_str("node"), node_args))
    } else {
        Ok((path.clone(), args))
    }
}

/// The text of capture group `group` of the first match of the regular
/// expression `pattern` in `haystack`; `None` when the pattern does not
/// compile, does not match, or the group takes no part in the match.
pub uninterp spec fn regex_capture_group(pattern: Seq<char>, haystack: Seq<char>, group: nat) -> Option<
    Seq<char>,
>;

/// `Regex::new(pattern)`, then `captures(haystack)`, then `get(group)`.
#[verifier::external_body]
fn regex_capture(pattern: &str, haystack: &str, group: usize) -> (r: Option<String>)
    ensures
        match r {
            Some(s) => regex_capture_group(pattern@, haystack@, group as nat) == Some(s@),
            None => regex_capture_group(pattern@, haystack@, group as nat) is None,
        },
{
    let re = regex::Regex::new(pattern).ok()?;
    let caps = re.captures(haystack)?;
    caps.get(group).map(|m| m.as_str().to_string())
}

/// The pattern of the line in which a TCP server announces its port.
pub open spec fn port_announcement() -> Seq<char> {
    "listening on port (\\d+)"@
}

/// The port a server output line announces, if it announces one.
pub open spec fn announced_port(line: Seq<char>) -> Option<u16> {
    match regex_capture_group(port_announcement(), line, 1) {
        Some(digits) => parse_port(digits),
        None => None,
    }
}

/// Reads the port announced in one line of the server's output.
pub fn port_from_line(line: &str) -> (r: Option<u16>)
    ensures
        r == announced_port(line@),
{
    match regex_capture("listening on port (\\d+)", line, 1) {
        Some(digits) => {
            let cs = chars_of(digits.as_str());
            assert(cs@.subrange(0, cs@.len() as int) =~= cs@);
            match parse_unsigned_range(&cs, 0, cs.len(), 65535) {
                Some(p) => Some(p as u16),
                None => None,
            }
        },
        None => None,
    }
}

/// How long a spawned server may take to announce its port, in milliseconds.
pub const PORT_WAIT_LIMIT_MS: u64 = 10000;

/// How long to wait for an output line before looking at the clock again,
/// in milliseconds.
pub const PORT_POLL_MS: u64 = 100;

/// Whether to go on waiting for the port announcement `elapsed_ms`
/// milliseconds after the wait began: yes below the limit, else the start
/// fails.
pub fn keep_waiting_for_port(elapsed_ms: u64) -> (r: Result<()>)
    ensures
        elapsed_ms < PORT_WAIT_LIMIT_MS ==> r is Ok,
        elapsed_ms >= PORT_WAIT_LIMIT_MS ==> (r matches Err(CopilotError::ServerStartFailed(m)) && m@
            == "Timeout waiting for port"@),
{
    if elapsed_ms < PORT_WAIT_LIMIT_MS {
        Ok(())
    } else {
        Err(CopilotError::ServerStartFailed(String::from_str("Timeout waiting for port")))
    }
}

} // verus!

verus! {

// ---------------------------------------------------------------------------
// Ping and protocol version
// ---------------------------------------------------------------------------

/// The parameters of `ping`: `{}`, or `{"message": m}`.
pub open spec fn ping_params(message: Option<Seq<char>>) -> Json {
    Json::Object(opt_member("message"@, match message {
        Some(m) => Some(Json::Str(m)),
        None => None,
    }))
}

/// Builds the parameters of `ping`.
pub fn build_ping_params(message: &Option<String>) -> (r: JsonValue)
    ensures
        r@ == ping_params(message.deep_view()),
{
    let mut f = no_members();
    push_opt_str(&mut f, "message", message);
    assert(view_fields(f@) =~= opt_member("message"@, match message.deep_view() {
        Some(m) => Some(Json::Str(m)),
        None => None,
    }));
    JsonValue::Object(f)
}

/// Reads the reply to `ping`: `message` (empty when missing), `timestamp`
/// (0 when missing), and `protocolVersion` truncated to 32 bits.
pub fn ping_response_from(result: &JsonValue) -> (r: PingResponse)
    ensures
        r.message@ == (match str_field(result@, "message"@) {
            Some(m) => m,
            None => Seq::<char>::empty(),
        }),
        r.timestamp == (match as_i64(get(result@, "timestamp"@)) {
            Some(t) => t as i64,
            None => 0i64,
        }),
        r.protocol_version == (match as_i64(get(result@, "protocolVersion"@)) {
            Some(v) => Some((v as i64) as i32),
            None => None::<i32>,
        }),
{
    let message = match crate::json::get_str(result, "message") {
        Some(m) => m,
        None => String::new(),
    };
    let timestamp = match get_i64(result, "timestamp") {
        Some(t) => t,
        None => 0,
    };
    let protocol_version = match get_i64(result, "protocolVersion") {
        Some(v) => Some(v as i32),
        None => None,
    };
    PingResponse { message, timestamp, protocol_version }
}

/// Accepts a server only when it reports this library's protocol version.
pub fn check_protocol_version(reported: Option<i32>) -> (r: Result<()>)
    ensures
        match reported {
            None => r matches Err(CopilotError::NoProtocolVersion { expected })
                && expected == crate::sdk_protocol_version::SDK_PROTOCOL_VERSION,
            Some(v) => if v == crate::sdk_protocol_version::SDK_PROTOCOL_VERSION {
                r is Ok
            } else {
                r matches Err(CopilotError::ProtocolVersionMismatch { expected, actual })
                    && expected == crate::sdk_protocol_version::SDK_PROTOCOL_VERSION && actual == v
            },
        },
{
    let expected = crate::sdk_protocol_version::get_sdk_protocol_version();
    match reported {
        None => Err(CopilotError::NoProtocolVersion { expected }),
        Some(actual) => if actual != expected {
            Err(CopilotError::ProtocolVersionMismatch { expected, actual })
        } else {
            Ok(())
        },
    }
}

/// The id of the session that `session.create` or `session.resume` opened.
pub fn session_id_from(result: &JsonValue) -> (r: Result<String>)
    ensures
        match str_field(result@, "sessionId"@) {
            Some(s) => r matches Ok(x) && x@ == s,
            None => r matches Err(CopilotError::InvalidResponse(m)) && m@ == "Missing sessionId"@,
        },
{
    let r = crate::session::required_str(result, "sessionId", "sessionId");
    proof {
        reveal_strlit("Missing ");
        reveal_strlit("sessionId");
        reveal_strlit("Missing sessionId");
    }
    r
}

// ---------------------------------------------------------------------------
// Connection state
// ---------------------------------------------------------------------------

/// What `start` does next.
#[derive(Debug, Clone, Copy, PartialEq, Eq, Structural)]
pub enum StartStep {
    /// Already connected: nothing to do.
    AlreadyConnected,
    /// Connect, first spawning the CLI server when `spawn_server` holds.
    Proceed { spawn_server: bool },
}

/// The client's decisions and state, apart from its I/O.
pub struct ClientCore {
    /// The options, with their defaults filled in.
    pub options: ClientOptions,
    /// Connection state.
    pub state: ConnectionState,
    /// Host of the server.
    pub actual_host: String,
    /// Port of the server (0: not known yet).
    pub actual_port: u16,
    /// Whether the client connects to a server it did not start.
    pub is_external_server: bool,
}

/// The options with their defaults: the CLI path from the environment or
/// `copilot`, the log level `info`.
pub open spec fn resolved_options(o: ClientOptionsView, env_cli_path: Option<Seq<char>>) -> ClientOptionsView {
    ClientOptionsView {
        cli_path: match o.cli_path {
            Some(p) => Some(p),
            None => match env_cli_path {
                Some(e) => Some(e),
                None => Some("copilot"@),
            },
        },
        log_level: match o.log_level {
            Some(l) => Some(l),
            None => Some("info"@),
        },
        ..o
    }
}

impl ClientCore {
    /// A disconnected client for `options`; `env_cli_path` is the value of
    /// the `COPILOT_CLI_PATH` environment variable, if set.
    pub fn new(options: ClientOptions, env_cli_path: Option<String>) -> (r: Self)
        ensures
            r.options@ == resolved_options(options@, env_cli_path.deep_view()),
            r.state == ConnectionState::Disconnected,
            r.actual_host@ == "localhost"@,
            r.actual_port == 0,
            r.is_external_server == (options.cli_url is Some),
    {
        let is_external_server = options.cli_url.is_some();
        let mut options = options;
        if options.cli_path.is_none() {
            options.cli_path = match env_cli_path {
                Some(p) => Some(p),
                None => Some(String::from_str("copilot")),
            };
        }
        if options.log_level.is_none() {
            options.log_level = Some(String::from_str("info"));
        }
        ClientCore {
            options,
            state: ConnectionState::Disconnected,
            actual_host: String::from_str("localhost"),
            actual_port: 0,
            is_external_server,
        }
    }

    /// The connection state.
    pub fn get_state(&self) -> (r: ConnectionState)
        ensures
            r == self.state,
    {
        self.state
    }

    /// Whether a session request must start the client first.
    pub fn needs_start(&self) -> (r: bool)
        ensures
            r == (self.options.auto_start && self.state != ConnectionState::Connected),
    {
        self.options.auto_start && self.state != ConnectionState::Connected
    }

    /// First step of `start`: nothing when connected; otherwise the state
    /// becomes `Connecting` and the server URL, if any, is read (its error
    /// ends the start, leaving the state `Connecting`).
    pub fn begin_start(&mut self) -> (r: Result<StartStep>)
        ensures
            old(self).state == ConnectionState::Connected ==> r == Ok::<StartStep, CopilotError>(
                StartStep::AlreadyConnected,
            ) && *final(self) == *old(self),
            old(self).state != ConnectionState::Connected ==> {
                &&& final(self).state == ConnectionState::Connecting
                &&& final(self).options == old(self).options
                &&& final(self).is_external_server == old(self).is_external_server
                &&& match old(self).options.cli_url {
                    None => r == Ok::<StartStep, CopilotError>(
                        StartStep::Proceed { spawn_server: !old(self).is_external_server },
                    ) && final(self).actual_host == old(self).actual_host
                        && final(self).actual_port == old(self).actual_port,
                    Some(url) => match cli_url_target(url@) {
                        CliUrl::Address(h, p) => r == Ok::<StartStep, CopilotError>(
                            StartStep::Proceed { spawn_server: !old(self).is_external_server },
                        ) && final(self).actual_host@ == h && final(self).actual_port == p,
                        CliUrl::BadFormat(u) => (r matches Err(CopilotError::InvalidUrl(m)) && m@
                            == bad_format_text(u)) && final(self).actual_host
                            == old(self).actual_host && final(self).actual_port
                            == old(self).actual_port,
                        CliUrl::BadPort(u) => (r matches Err(CopilotError::InvalidUrl(m)) && m@
                            == bad_port_text(u)) && final(self).actual_host
                            == old(self).actual_host && final(self).actual_port
                            == old(self).actual_port,
                    },
                }
            },
    {
        if self.state == ConnectionState::Connected {
            return Ok(StartStep::AlreadyConnected);
        }
        self.state = ConnectionState::Connecting;
        match &self.options.cli_url {
            Some(url) => {
                let (host, port) = parse_cli_url(url.as_str())?;
                self.actual_host = host;
                self.actual_port = port;
            },
            None => {},
        }
        Ok(StartStep::Proceed { spawn_server: !self.is_external_server })
    }

    /// Records the port a spawned server announced.
    pub fn set_port(&mut self, port: u16)
        ensures
            *final(self) == (ClientCore { actual_port: port, ..*old(self) }),
    {
        self.actual_port = port;
    }

    /// The address to connect to over TCP, `host:port`; fails while the port
    /// is unknown.
    pub fn tcp_address(&self) -> (r: Result<String>)
        ensures
            self.actual_port == 0 ==> (r matches Err(CopilotError::ConnectionFailed(m)) && m@
                == "Server port not available"@),
            self.actual_port != 0 ==> (r matches Ok(a) && a@ == self.actual_host@ + ":"@ + decimal(
                self.actual_port as nat,
            )),
    {
        if self.actual_port == 0 {
            return Err(CopilotError::ConnectionFailed(String::from_str("Server port not available")));
        }
        let mut a = self.actual_host.clone();
        push_str(&mut a, ":");
        push_decimal(&mut a, self.actual_port as u64);
        Ok(a)
    }

    /// Last step of `start`: the server's reported protocol version decides
    /// whether the client is connected (on error the state stays as it was).
    pub fn finish_start(&mut self, reported_version: Option<i32>) -> (r: Result<()>)
        ensures
            r is Ok <==> reported_version == Some(crate::sdk_protocol_version::SDK_PROTOCOL_VERSION),
            r is Ok ==> *final(self) == (ClientCore { state: ConnectionState::Connected, ..*old(self) }),
            r is Err ==> *final(self) == *old(self),
    {
        check_protocol_version(reported_version)?;
        self.state = ConnectionState::Connected;
        Ok(())
    }

    /// Last step of `start`, given the outcome of what came between
    /// `begin_start` and here (spawning, connecting, the ping): its error ends
    /// the start with nothing changed; otherwise the protocol version the
    /// server reported decides, as in `finish_start`.
    pub fn start_outcome(&mut self, outcome: Result<Option<i32>>) -> (r: Result<()>)
        ensures
            outcome matches Err(e) ==> r == Err::<(), CopilotError>(e) && *final(self) == *old(self),
            outcome matches Ok(v) ==> (r is Ok <==> v == Some(
                crate::sdk_protocol_version::SDK_PROTOCOL_VERSION,
            )),
            r is Ok ==> *final(self) == (ClientCore { state: ConnectionState::Connected, ..*old(self) }),
            r is Err ==> *final(self) == *old(self),
    {
        match outcome {
            Err(e) => Err(e),
            Ok(v) => self.finish_start(v),
        }
    }

    /// The spawned server exited on its own. When the client was connected to
    /// a server it spawned and its options ask for restarts, it becomes
    /// disconnected, forgets the server's port and is to start again;
    /// otherwise nothing changes.
    pub fn server_exited(&mut self) -> (restart: bool)
        ensures
            restart == (old(self).options.auto_restart && !old(self).is_external_server
                && old(self).state == ConnectionState::Connected),
            restart ==> final(self).state == ConnectionState::Disconnected && final(self).actual_port
                == 0 && final(self).options == old(self).options && final(self).actual_host
                == old(self).actual_host && final(self).is_external_server
                == old(self).is_external_server,
            !restart ==> *final(self) == *old(self),
    {
        let restart = self.options.auto_restart && !self.is_external_server && self.state
            == ConnectionState::Connected;
        if restart {
            self.stopped();
        }
        restart
    }

    /// The state after `stop` or `force_stop`: disconnected, and the port
    /// forgotten unless the server is external.
    pub fn stopped(&mut self)
        ensures
            final(self).state == ConnectionState::Disconnected,
            final(self).actual_port == (if old(self).is_external_server {
                old(self).actual_port
            } else {
                0
            }),
            final(self).options == old(self).options,
            final(self).actual_host == old(self).actual_host,
            final(self).is_external_server == old(self).is_external_server,
    {
        self.state = ConnectionState::Disconnected;
        if !self.is_external_server {
            self.actual_port = 0;
        }
    }
}

/// `r` is the error `stop` reports for a session whose destruction failed
/// with `e`: `Other`, with the text of `e` after a fixed prefix.
pub open spec fn is_destroy_failure(e: CopilotError, r: CopilotError) -> bool {
    r matches CopilotError::Other(m) && "Failed to destroy session: "@.len() <= m@.len() && m@.take(
        "Failed to destroy session: "@.len() as int,
    ) == "Failed to destroy session: "@ && crate::error::is_message_of(
        e,
        m@.skip("Failed to destroy session: "@.len() as int),
    )
}

/// The error `stop` reports for a session it could not destroy.
pub fn destroy_failure(e: &CopilotError) -> (r: CopilotError)
    ensures
        is_destroy_failure(*e, r),
{
    let mut m = String::from_str("Failed to destroy session: ");
    let t = e.message();
    let ghost head = m@;
    push_str(&mut m, t.as_str());
    assert(m@.take(head.len() as int) =~= head);
    assert(m@.skip(head.len() as int) =~= t@);
    CopilotError::Other(m)
}

} // verus!

verus! {

// ---------------------------------------------------------------------------
// Laws of server URLs
// ---------------------------------------------------------------------------

/// A text with no `:` has neither scheme as a prefix once followed by `:`
/// and a decimal port.
proof fn lemma_no_scheme(u: Seq<char>, i: int)
    requires
        only_colon_at(u, i),
        i + 1 < u.len(),
        crate::text::is_ascii_digit(u[i + 1]),
    ensures
        !has_prefix(u, "http://"@),
        !has_prefix(u, "https://"@),
        trim_start_matches(u, "http://"@) == u,
        trim_start_matches(u, "https://"@) == u,
{
    reveal_strlit("http://");
    reveal_strlit("https://");
    if has_prefix(u, "http://"@) {
        assert(u[4] == "http://"@[4]);
        assert(u[5] == "http://"@[5]);
    }
    if has_prefix(u, "https://"@) {
        assert(u[5] == "https://"@[5]);
        assert(u[6] == "https://"@[6]);
    }
}

/// Resuming a session without options sends `{"sessionId": id}` and nothing
/// else: the same request as resuming it with a configuration that sets
/// nothing (no tools, provider, streaming, permission handler, servers or
/// agents).
pub proof fn resume_without_options<H, P>(session_id: Seq<char>, c: ResumeSessionConfig<H, P>)
    requires
        c.tools@.len() == 0,
        c.provider is None,
        !c.streaming,
        c.on_permission_request is None,
        c.mcp_servers is None,
        c.custom_agents is None,
    ensures
        resume_session_params::<H, P>(session_id, None) == Json::Object(
            seq![("sessionId"@, Json::Str(session_id))],
        ),
        resume_session_params(session_id, Some(c)) == resume_session_params::<H, P>(session_id, None),
{
    let base = seq![("sessionId"@, Json::Str(session_id))];
    assert(base + member_if(false, "tools"@, tool_declarations(c.tools@)) + opt_member(
        "provider"@,
        None,
    ) + member_if(false, "streaming"@, Json::Bool(true)) + member_if(
        false,
        "requestPermission"@,
        Json::Bool(true),
    ) + opt_member("mcpServers"@, None) + opt_member("customAgents"@, None) =~= base);
}

/// A bare port names that port on `localhost`.
pub proof fn cli_url_bare_port(p: u16)
    ensures
        cli_url_target(decimal(p as nat)) == CliUrl::Address("localhost"@, p),
{
    reveal_strlit("http://");
    reveal_strlit("https://");
    let d = decimal(p as nat);
    crate::text::lemma_decimal_digits(p as nat);
    crate::text::lemma_parse_decimal(p as nat, 65535);
    assert(crate::text::is_ascii_digit(d[0]));
    assert(!has_prefix(d, "http://"@)) by {
        if has_prefix(d, "http://"@) {
            assert(d[0] == "http://"@[0]);
        }
    }
    assert(!has_prefix(d, "https://"@)) by {
        if has_prefix(d, "https://"@) {
            assert(d[0] == "https://"@[0]);
        }
    }
    assert(strip_scheme(d) == d);
}

/// `host:port`, with or without an `http://` scheme, names that port on that
/// host (on `localhost` when the host is empty), for any host without `:`.
pub proof fn cli_url_host_port(host: Seq<char>, p: u16)
    requires
        forall|i: int| 0 <= i < host.len() ==> host[i] != ':',
    ensures
        cli_url_target(host + ":"@ + decimal(p as nat)) == CliUrl::Address(
            if host.len() == 0 {
                "localhost"@
            } else {
                host
            },
            p,
        ),
        cli_url_target("http://"@ + host + ":"@ + decimal(p as nat)) == CliUrl::Address(
            if host.len() == 0 {
                "localhost"@
            } else {
                host
            },
            p,
        ),
{
    reveal_strlit(":");
    reveal_strlit("http://");
    let d = decimal(p as nat);
    crate::text::lemma_decimal_digits(p as nat);
    crate::text::lemma_parse_decimal(p as nat, 65535);
    let u = host + ":"@ + d;
    let k = host.len() as int;
    assert(u[k] == ':');
    assert forall|j: int| 0 <= j < u.len() && j != k implies u[j] != ':' by {
        if j < k {
            assert(u[j] == host[j]);
        } else {
            assert(u[j] == d[j - k - 1]);
            assert(crate::text::is_ascii_digit(d[j - k - 1]));
        }
    }
    assert(only_colon_at(u, k));
    assert(u[k + 1] == d[0]);
    assert(crate::text::is_ascii_digit(d[0]));
    lemma_no_scheme(u, k);
    assert(strip_scheme(u) == u);
    // The whole text is not a port: it holds a `:`.
    assert(parse_port(u) is None) by {
        let s = if u.len() > 0 && u[0] == '+' { u.drop_first() } else { u };
        if k == 0 {
            assert(s == u);
            assert(!crate::text::is_ascii_digit(s[0]));
        } else if u[0] == '+' {
            assert(!crate::text::is_ascii_digit(s[k - 1]));
        } else {
            assert(!crate::text::is_ascii_digit(s[k]));
        }
    }
    assert forall|j: int| only_colon_at(u, j) implies j == k by {
        if j != k {
            assert(u[k] == ':');
        }
    }
    assert(u.take(k) =~= host);
    assert(u.skip(k + 1) =~= d);
    // With the scheme: it is stripped first.
    let w = "http://"@ + u;
    assert(has_prefix(w, "http://"@)) by {
        assert(w.take(7) =~= "http://"@);
    }
    assert(w.skip(7) =~= u);
    assert(trim_start_matches(w, "http://"@) == trim_start_matches(u, "http://"@));
    assert(w =~= "http://"@ + host + ":"@ + d);
}

} // verus!

verus! {

// ---------------------------------------------------------------------------
// Errors of the server's life cycle
// ---------------------------------------------------------------------------

/// `r` is the error `stop` reports for a server process it could not kill:
/// `Other`, with the I/O error's text after a fixed prefix.
pub open spec fn is_kill_failure(r: CopilotError) -> bool {
    r matches CopilotError::Other(m) && "Failed to kill CLI process: "@.len() <= m@.len() && m@.take(
        "Failed to kill CLI process: "@.len() as int,
    ) == "Failed to kill CLI process: "@
}

/// The error `stop` reports for a server process it could not kill.
pub fn kill_failure(e: &std::io::Error) -> (r: CopilotError)
    ensures
        is_kill_failure(r),
{
    let mut m = String::from_str("Failed to kill CLI process: ");
    let t = crate::error::io_error_text(e);
    push_str(&mut m, t.as_str());
    assert(m@.take("Failed to kill CLI process: "@.len() as int) =~= "Failed to kill CLI process: "@);
    CopilotError::Other(m)
}

/// The error for a server process that could not be spawned: the I/O
/// error's text.
pub fn spawn_failure(e: &std::io::Error) -> (r: CopilotError)
    ensures
        r is ServerStartFailed,
{
    CopilotError::ServerStartFailed(crate::error::io_error_text(e))
}

/// The error for a TCP connection to `address` that failed.
pub fn connect_failure(address: &String, e: &std::io::Error) -> (r: CopilotError)
    ensures
        r matches CopilotError::ConnectionFailed(m) && ("Failed to connect to "@ + address@
            + ": "@).len() <= m@.len() && m@.take(("Failed to connect to "@ + address@ + ": "@).len() as int)
            == "Failed to connect to "@ + address@ + ": "@,
{
    let mut m = String::from_str("Failed to connect to ");
    push_str(&mut m, address.as_str());
    push_str(&mut m, ": ");
    let ghost head = m@;
    let t = crate::error::io_error_text(e);
    push_str(&mut m, t.as_str());
    assert(m@.take(head.len() as int) =~= head);
    CopilotError::ConnectionFailed(m)
}

/// The errors among the outcomes of destroying sessions, in order.
pub open spec fn errors_of(s: Seq<Result<()>>) -> Seq<CopilotError>
    decreases s.len(),
{
    if s.len() == 0 {
        Seq::empty()
    } else {
        match s.last() {
            Err(e) => errors_of(s.drop_last()).push(e),
            Ok(_) => errors_of(s.drop_last()),
        }
    }
}

/// What `stop` reports, given the outcome of destroying each session and, when
/// it spawned the server, the outcome of killing it: one error per failed
/// destruction, in order, then one if the kill failed.
pub fn stop_errors(
    destroy_outcomes: &Vec<Result<()>>,
    kill_outcome: &Option<std::result::Result<(), std::io::Error>>,
) -> (r: Vec<CopilotError>)
    ensures
        r@.len() == errors_of(destroy_outcomes@).len() + (if kill_outcome matches Some(Err(_)) {
            1int
        } else {
            0int
        }),
        forall|i: int|
            0 <= i < errors_of(destroy_outcomes@).len() ==> is_destroy_failure(
                #[trigger] errors_of(destroy_outcomes@)[i],
                r@[i],
            ),
        kill_outcome matches Some(Err(_)) ==> is_kill_failure(
            r@[errors_of(destroy_outcomes@).len() as int],
        ),
{
    let mut out: Vec<CopilotError> = Vec::new();
    let mut i: usize = 0;
    while i < destroy_outcomes.len()
        invariant
            i <= destroy_outcomes@.len(),
            out@.len() == errors_of(destroy_outcomes@.take(i as int)).len(),
            forall|j: int|
                0 <= j < out@.len() ==> is_destroy_failure(
                    #[trigger] errors_of(destroy_outcomes@.take(i as int))[j],
                    out@[j],
                ),
        decreases destroy_outcomes.len() - i,
    {
        let ghost before = errors_of(destroy_outcomes@.take(i as int));
        proof {
            assert(destroy_outcomes@.take(i + 1).drop_last() =~= destroy_outcomes@.take(i as int));
        }
        match &destroy_outcomes[i] {
            Err(e) => {
                let f = destroy_failure(e);
                out.push(f);
                proof {
                    let now = errors_of(destroy_outcomes@.take(i + 1));
                    assert(now == before.push(*e));
                    assert forall|j: int| 0 <= j < out@.len() implies is_destroy_failure(
                        #[trigger] now[j],
                        out@[j],
                    ) by {
                        if j < before.len() {
                            assert(now[j] == before[j]);
                        }
                    }
                }
            },
            Ok(_) => {},
        }
        i = i + 1;
    }
    proof {
        assert(destroy_outcomes@.take(destroy_outcomes@.len() as int) =~= destroy_outcomes@);
    }
    let ghost prev = out@;
    match kill_outcome {
        Some(Err(e)) => {
            let f = kill_failure(e);
            out.push(f);
            assert forall|j: int| 0 <= j < prev.len() implies is_destroy_failure(
                #[trigger] errors_of(destroy_outcomes@)[j],
                out@[j],
            ) by {
                assert(out@[j] == prev[j]);
            }
        },
        _ => {},
    }
    out
}

/// The connection to the server, or `NotConnected` while there is none
/// (requests need one).
pub fn require_connection<'a, C>(connection: Option<&'a C>) -> (r: Result<&'a C>)
    ensures
        match connection {
            Some(c) => r == Ok::<&C, CopilotError>(c),
            None => r matches Err(CopilotError::NotConnected),
        },
{
    match connection {
        Some(c) => Ok(c),
        None => Err(CopilotError::NotConnected),
    }
}

// ---------------------------------------------------------------------------
// The client's state: connection state, connection and open sessions
// ---------------------------------------------------------------------------

/// Everything a client holds besides its I/O: its connection state, the
/// connection to the server (`C`) once there is one, and its open sessions
/// (`S`) by id.
pub struct ClientState<C, S> {
    /// The connection state and options.
    pub core: ClientCore,
    /// The connection to the server, if any.
    pub connection: Option<C>,
    /// The open sessions, by id.
    pub sessions: Registry<S>,
}

impl<C, S> ClientState<C, S> {
    /// A client with no connection and no session.
    pub fn new(core: ClientCore) -> (r: Self)
        ensures
            r.core == core,
            r.connection is None,
            r.sessions@ == Map::<Seq<char>, S>::empty(),
    {
        ClientState { core, connection: None, sessions: Registry::new() }
    }

    /// The connection requests go over, or `NotConnected`.
    pub fn connection(&self) -> (r: Result<&C>)
        ensures
            match self.connection {
                Some(c) => r == Ok::<&C, CopilotError>(&c),
                None => r matches Err(CopilotError::NotConnected),
            },
    {
        require_connection(self.connection.as_ref())
    }

    /// Records an open session under its id (replacing one of that id).
    pub fn add_session(&mut self, session_id: String, session: S)
        ensures
            final(self).sessions@ == old(self).sessions@.insert(session_id@, session),
            final(self).core == old(self).core,
            final(self).connection == old(self).connection,
    {
        self.sessions.insert(session_id, session);
    }

    /// The sessions `stop` destroys: every open session, each once.
    pub fn stop_targets(&self) -> (r: Vec<&S>)
        ensures
            r@.len() == self.sessions@.dom().len(),
            forall|i: int| 0 <= i < r@.len() ==> self.sessions@.values().contains(*#[trigger] r@[i]),
            forall|k: Seq<char>|
                #[trigger] self.sessions@.contains_key(k) ==> exists|i: int|
                    0 <= i < r@.len() && *r@[i] == self.sessions@[k],
    {
        self.sessions.values()
    }

    /// Ends `stop`, given the outcome of destroying each of `stop_targets()`
    /// and of killing the spawned server: no session is left, the connection
    /// is dropped, the client is disconnected, and the errors are reported.
    pub fn stop(
        &mut self,
        destroy_outcomes: &Vec<Result<()>>,
        kill_outcome: &Option<std::result::Result<(), std::io::Error>>,
    ) -> (r: Vec<CopilotError>)
        ensures
            final(self).sessions@ == Map::<Seq<char>, S>::empty(),
            final(self).connection is None,
            final(self).core.state == ConnectionState::Disconnected,
            final(self).core.actual_port == (if old(self).core.is_external_server {
                old(self).core.actual_port
            } else {
                0
            }),
            final(self).core.options == old(self).core.options,
            r@.len() == errors_of(destroy_outcomes@).len() + (if kill_outcome matches Some(Err(_)) {
                1int
            } else {
                0int
            }),
            forall|i: int|
                0 <= i < errors_of(destroy_outcomes@).len() ==> is_destroy_failure(
                    #[trigger] errors_of(destroy_outcomes@)[i],
                    r@[i],
                ),
            kill_outcome matches Some(Err(_)) ==> is_kill_failure(
                r@[errors_of(destroy_outcomes@).len() as int],
            ),
    {
        self.sessions.clear();
        self.connection = None;
        self.core.stopped();
        stop_errors(destroy_outcomes, kill_outcome)
    }

    /// `force_stop`: no session is left (none is destroyed on the server), the
    /// connection is dropped and the client is disconnected.
    pub fn force_stop(&mut self)
        ensures
            final(self).sessions@ == Map::<Seq<char>, S>::empty(),
            final(self).connection is None,
            final(self).core.state == ConnectionState::Disconnected,
            final(self).core.actual_port == (if old(self).core.is_external_server {
                old(self).core.actual_port
            } else {
                0
            }),
            final(self).core.options == old(self).core.options,
    {
        self.sessions.clear();
        self.connection = None;
        self.core.stopped();
    }
}

/// The id of the session a `session.create` or `session.resume` request
/// opened, given the request's outcome: its error, or the reply's
/// `sessionId` (`InvalidResponse("Missing sessionId")` without one).
pub fn opened_session_id(reply: Result<JsonValue>) -> (r: Result<String>)
    ensures
        match reply {
            Err(e) => r == Err::<String, CopilotError>(e),
            Ok(j) => match str_field(j@, "sessionId"@) {
                Some(s) => r matches Ok(x) && x@ == s,
                None => r matches Err(CopilotError::InvalidResponse(m)) && m@ == "Missing sessionId"@,
            },
        },
{
    match reply {
        Err(e) => Err(e),
        Ok(j) => session_id_from(&j),
    }
}

} // verus!

verus! {

// ---------------------------------------------------------------------------
// Laws of the session request parameters
// ---------------------------------------------------------------------------

/// `items` are the strings of `names`, in order.
pub open spec fn strings_are(items: Seq<Json>, names: Seq<String>) -> bool {
    &&& items.len() == names.len()
    &&& forall|i: int| 0 <= i < names.len() ==> #[trigger] items[i] == Json::Str(names[i]@)
}

/// `d` declares tool `t` to the server: its name, its description (`null`
/// without one) and its parameter schema, if it has one.
pub open spec fn declares_tool<H>(d: Json, t: Tool<H>) -> bool {
    &&& get(d, "name"@) == Some(Json::Str(t.name@))
    &&& get(d, "description"@) == Some(crate::json::opt_str(t.description.deep_view()))
    &&& get(d, "parameters"@) == (match t.parameters {
        Some(p) => Some(p@),
        None => None,
    })
}

/// The member `key` of `params` declares `tools`, one declaration per tool
/// in order, when there are tools; otherwise there is no such member.
pub open spec fn declares_tools<H>(params: Json, tools: Seq<Tool<H>>) -> bool {
    if tools.len() > 0 {
        get(params, "tools"@) matches Some(Json::Array(ds)) && ds.len() == tools.len() && forall|i: int|
            0 <= i < tools.len() ==> declares_tool(#[trigger] ds[i], tools[i])
    } else {
        get(params, "tools"@) is None
    }
}

/// The member `key` of `params` lists `names` when they are given, and is
/// absent otherwise.
pub open spec fn lists_names(params: Json, key: Seq<char>, names: Option<Vec<String>>) -> bool {
    match names {
        Some(a) => get(params, key) matches Some(Json::Array(xs)) && strings_are(xs, a@),
        None => get(params, key) is None,
    }
}

/// The names of the members of session requests are pairwise different
/// where it matters here.
proof fn lemma_param_names()
    ensures
        "tools"@ != "sessionId"@,
        "tools"@ != "model"@,
        "availableTools"@ != "sessionId"@,
        "availableTools"@ != "model"@,
        "availableTools"@ != "tools"@,
        "availableTools"@ != "systemMessage"@,
        "excludedTools"@ != "sessionId"@,
        "excludedTools"@ != "model"@,
        "excludedTools"@ != "tools"@,
        "excludedTools"@ != "systemMessage"@,
        "excludedTools"@ != "availableTools"@,
        "availableTools"@ != "excludedTools"@,
        "availableTools"@ != "streaming"@,
        "availableTools"@ != "provider"@,
        "availableTools"@ != "requestPermission"@,
        "availableTools"@ != "mcpServers"@,
        "availableTools"@ != "customAgents"@,
        "excludedTools"@ != "streaming"@,
        "excludedTools"@ != "provider"@,
        "excludedTools"@ != "requestPermission"@,
        "excludedTools"@ != "mcpServers"@,
        "excludedTools"@ != "customAgents"@,
        "tools"@ != "systemMessage"@,
        "tools"@ != "streaming"@,
        "tools"@ != "provider"@,
        "tools"@ != "requestPermission"@,
        "tools"@ != "mcpServers"@,
        "tools"@ != "customAgents"@,
        "name"@ != "description"@,
        "name"@ != "parameters"@,
        "description"@ != "parameters"@,
{
    reveal_strlit("tools");
    reveal_strlit("sessionId");
    reveal_strlit("model");
    reveal_strlit("availableTools");
    reveal_strlit("excludedTools");
    reveal_strlit("systemMessage");
    reveal_strlit("streaming");
    reveal_strlit("provider");
    reveal_strlit("requestPermission");
    reveal_strlit("mcpServers");
    reveal_strlit("customAgents");
    reveal_strlit("name");
    reveal_strlit("description");
    reveal_strlit("parameters");
    assert("tools"@[0] != "model"@[0]);
    assert("excludedTools"@[0] != "systemMessage"@[0]);
    assert("tools"@.len() != "sessionId"@.len());
    assert("availableTools"@.len() != "sessionId"@.len());
    assert("availableTools"@.len() != "model"@.len());
    assert("availableTools"@.len() != "tools"@.len());
    assert("availableTools"@.len() != "systemMessage"@.len());
    assert("excludedTools"@.len() != "sessionId"@.len());
    assert("excludedTools"@.len() != "model"@.len());
    assert("excludedTools"@.len() != "tools"@.len());
    assert("excludedTools"@.len() != "availableTools"@.len());
    assert("availableTools"@.len() != "streaming"@.len());
    assert("availableTools"@.len() != "provider"@.len());
    assert("availableTools"@.len() != "requestPermission"@.len());
    assert("availableTools"@.len() != "mcpServers"@.len());
    assert("availableTools"@.len() != "customAgents"@.len());
    assert("excludedTools"@.len() != "streaming"@.len());
    assert("excludedTools"@.len() != "provider"@.len());
    assert("excludedTools"@.len() != "requestPermission"@.len());
    assert("excludedTools"@.len() != "mcpServers"@.len());
    assert("excludedTools"@.len() != "customAgents"@.len());
    assert("tools"@.len() != "systemMessage"@.len());
    assert("tools"@.len() != "streaming"@.len());
    assert("tools"@.len() != "provider"@.len());
    assert("tools"@.len() != "requestPermission"@.len());
    assert("tools"@.len() != "mcpServers"@.len());
    assert("tools"@.len() != "customAgents"@.len());
    assert("name"@.len() != "description"@.len());
    assert("name"@.len() != "parameters"@.len());
    assert("description"@.len() != "parameters"@.len());
}

/// Each tool's declaration names it, describes it and gives its schema.
proof fn lemma_tool_declarations<H>(tools: Seq<Tool<H>>)
    ensures
        tool_declarations(tools) matches Json::Array(ds) && ds.len() == tools.len() && forall|i: int|
            0 <= i < tools.len() ==> declares_tool(#[trigger] ds[i], tools[i]),
{
    broadcast use crate::json::lemma_lookup_append, crate::json::lemma_lookup_single, crate::json::lemma_lookup_empty;
    lemma_param_names();
    let ds = tools.map_values(|t: Tool<H>| tool_declaration(t));
    assert forall|i: int| 0 <= i < tools.len() implies declares_tool(#[trigger] ds[i], tools[i]) by {
        let t = tools[i];
        assert(ds[i] == tool_declaration(t));
        let head = seq![
            ("name"@, Json::Str(t.name@)),
            ("description"@, crate::json::opt_str(t.description.deep_view())),
        ];
        assert(head =~= seq![("name"@, Json::Str(t.name@))] + seq![
            ("description"@, crate::json::opt_str(t.description.deep_view())),
        ]);
    }
}

/// Looking a key up in a single optional member.
proof fn lemma_lookup_opt_member(k: Seq<char>, v: Option<Json>, key: Seq<char>)
    ensures
        crate::json::lookup(opt_member(k, v), key) == (if k == key {
            v
        } else {
            None
        }),
{
    broadcast use crate::json::lemma_lookup_single, crate::json::lemma_lookup_empty;
}

/// Looking a key up in a member present only when `cond` holds.
proof fn lemma_lookup_member_if(cond: bool, k: Seq<char>, v: Json, key: Seq<char>)
    ensures
        crate::json::lookup(member_if(cond, k, v), key) == (if cond && k == key {
            Some(v)
        } else {
            None
        }),
{
    broadcast use crate::json::lemma_lookup_single, crate::json::lemma_lookup_empty;
}

/// The first of two lookups that finds something.
pub open spec fn either(a: Option<Json>, b: Option<Json>) -> Option<Json> {
    match a {
        Some(v) => Some(v),
        None => b,
    }
}

/// Members written in eleven parts: a key is looked up part by part.
proof fn lemma_lookup_parts(
    s0: Seq<(Seq<char>, Json)>,
    s1: Seq<(Seq<char>, Json)>,
    s2: Seq<(Seq<char>, Json)>,
    s3: Seq<(Seq<char>, Json)>,
    s4: Seq<(Seq<char>, Json)>,
    s5: Seq<(Seq<char>, Json)>,
    s6: Seq<(Seq<char>, Json)>,
    s7: Seq<(Seq<char>, Json)>,
    s8: Seq<(Seq<char>, Json)>,
    s9: Seq<(Seq<char>, Json)>,
    s10: Seq<(Seq<char>, Json)>,
    key: Seq<char>,
)
    ensures
        crate::json::lookup(s0 + s1 + s2 + s3 + s4 + s5 + s6 + s7 + s8 + s9 + s10, key) == either(
            either(
                either(
                    either(
                        either(
                            either(
                                either(
                                    either(
                                        either(
                                            either(
                                                crate::json::lookup(s0, key),
                                                crate::json::lookup(s1, key),
                                            ),
                                            crate::json::lookup(s2, key),
                                        ),
                                        crate::json::lookup(s3, key),
                                    ),
                                    crate::json::lookup(s4, key),
                                ),
                                crate::json::lookup(s5, key),
                            ),
                            crate::json::lookup(s6, key),
                        ),
                        crate::json::lookup(s7, key),
                    ),
                    crate::json::lookup(s8, key),
                ),
                crate::json::lookup(s9, key),
            ),
            crate::json::lookup(s10, key),
        ),
{
    let p1 = s0 + s1;
    let p2 = p1 + s2;
    let p3 = p2 + s3;
    let p4 = p3 + s4;
    let p5 = p4 + s5;
    let p6 = p5 + s6;
    let p7 = p6 + s7;
    let p8 = p7 + s8;
    let p9 = p8 + s9;
    crate::json::lemma_lookup_append(s0, s1, key);
    crate::json::lemma_lookup_append(p1, s2, key);
    crate::json::lemma_lookup_append(p2, s3, key);
    crate::json::lemma_lookup_append(p3, s4, key);
    crate::json::lemma_lookup_append(p4, s5, key);
    crate::json::lemma_lookup_append(p5, s6, key);
    crate::json::lemma_lookup_append(p6, s7, key);
    crate::json::lemma_lookup_append(p7, s8, key);
    crate::json::lemma_lookup_append(p8, s9, key);
    crate::json::lemma_lookup_append(p9, s10, key);
}

/// The members of `session.create`'s parameters, looked up by `key`.
proof fn lemma_create_lookup<H, P>(c: SessionConfig<H, P>, key: Seq<char>)
    ensures
        get(create_session_params(Some(c)), key) == either(
            either(
                either(
                    either(
                        either(
                            either(
                                either(
                                    either(
                                        either(
                                            either(
                                                crate::json::lookup(
                                                    opt_member("sessionId"@, opt_str_json(c.session_id)),
                                                    key,
                                                ),
                                                crate::json::lookup(
                                                    opt_member("model"@, opt_str_json(c.model)),
                                                    key,
                                                ),
                                            ),
                                            crate::json::lookup(
                                                member_if(
                                                    c.tools@.len() > 0,
                                                    "tools"@,
                                                    tool_declarations(c.tools@),
                                                ),
                                                key,
                                            ),
                                        ),
                                        crate::json::lookup(
                                            opt_member(
                                                "systemMessage"@,
                                                match c.system_message {
                                                    Some(m) => Some(m.json()),
                                                    None => None,
                                                },
                                            ),
                                            key,
                                        ),
                                    ),
                                    crate::json::lookup(
                                        opt_member("availableTools"@, opt_str_array(c.available_tools)),
                                        key,
                                    ),
                                ),
                                crate::json::lookup(
                                    opt_member("excludedTools"@, opt_str_array(c.excluded_tools)),
                                    key,
                                ),
                            ),
                            crate::json::lookup(member_if(c.streaming, "streaming"@, Json::Bool(true)), key),
                        ),
                        crate::json::lookup(
                            opt_member(
                                "provider"@,
                                match c.provider {
                                    Some(p) => Some(provider_params(p)),
                                    None => None,
                                },
                            ),
                            key,
                        ),
                    ),
                    crate::json::lookup(
                        member_if(c.on_permission_request is Some, "requestPermission"@, Json::Bool(true)),
                        key,
                    ),
                ),
                crate::json::lookup(
                    opt_member(
                        "mcpServers"@,
                        match c.mcp_servers {
                            Some(s) => Some(Json::Object(servers_members(s@))),
                            None => None,
                        },
                    ),
                    key,
                ),
            ),
            crate::json::lookup(
                opt_member(
                    "customAgents"@,
                    match c.custom_agents {
                        Some(a) => Some(agents_params(a@)),
                        None => None,
                    },
                ),
                key,
            ),
        ),
{
    lemma_lookup_parts(
        opt_member("sessionId"@, opt_str_json(c.session_id)),
        opt_member("model"@, opt_str_json(c.model)),
        member_if(c.tools@.len() > 0, "tools"@, tool_declarations(c.tools@)),
        opt_member(
            "systemMessage"@,
            match c.system_message {
                Some(m) => Some(m.json()),
                None => None,
            },
        ),
        opt_member("availableTools"@, opt_str_array(c.available_tools)),
        opt_member("excludedTools"@, opt_str_array(c.excluded_tools)),
        member_if(c.streaming, "streaming"@, Json::Bool(true)),
        opt_member(
            "provider"@,
            match c.provider {
                Some(p) => Some(provider_params(p)),
                None => None,
            },
        ),
        member_if(c.on_permission_request is Some, "requestPermission"@, Json::Bool(true)),
        opt_member(
            "mcpServers"@,
            match c.mcp_servers {
                Some(s) => Some(Json::Object(servers_members(s@))),
                None => None,
            },
        ),
        opt_member(
            "customAgents"@,
            match c.custom_agents {
                Some(a) => Some(agents_params(a@)),
                None => None,
            },
        ),
        key,
    );
}

/// A configured list of names, as JSON: each name, in order.
proof fn lemma_names_json(names: Option<Vec<String>>)
    ensures
        match names {
            Some(a) => opt_str_array(names) matches Some(Json::Array(xs)) && strings_are(xs, a@),
            None => opt_str_array(names) is None,
        },
{
}

/// Looks `key` up in each member of `session.create`'s parameters.
proof fn lemma_create_parts<H, P>(c: SessionConfig<H, P>, key: Seq<char>)
    ensures
        crate::json::lookup(opt_member("sessionId"@, opt_str_json(c.session_id)), key) == (if key
            == "sessionId"@ {
            opt_str_json(c.session_id)
        } else {
            None
        }),
        crate::json::lookup(opt_member("model"@, opt_str_json(c.model)), key) == (if key == "model"@ {
            opt_str_json(c.model)
        } else {
            None
        }),
        crate::json::lookup(member_if(c.tools@.len() > 0, "tools"@, tool_declarations(c.tools@)), key)
            == (if c.tools@.len() > 0 && key == "tools"@ {
            Some(tool_declarations(c.tools@))
        } else {
            None
        }),
        key != "systemMessage"@ ==> crate::json::lookup(
            opt_member(
                "systemMessage"@,
                match c.system_message {
                    Some(m) => Some(m.json()),
                    None => None,
                },
            ),
            key,
        ) is None,
        crate::json::lookup(opt_member("availableTools"@, opt_str_array(c.available_tools)), key) == (
        if key == "availableTools"@ {
            opt_str_array(c.available_tools)
        } else {
            None
        }),
        crate::json::lookup(opt_member("excludedTools"@, opt_str_array(c.excluded_tools)), key) == (
        if key == "excludedTools"@ {
            opt_str_array(c.excluded_tools)
        } else {
            None
        }),
        key != "streaming"@ ==> crate::json::lookup(
            member_if(c.streaming, "streaming"@, Json::Bool(true)),
            key,
        ) is None,
        key != "provider"@ ==> crate::json::lookup(
            opt_member(
                "provider"@,
                match c.provider {
                    Some(p) => Some(provider_params(p)),
                    None => None,
                },
            ),
            key,
        ) is None,
        key != "requestPermission"@ ==> crate::json::lookup(
            member_if(c.on_permission_request is Some, "requestPermission"@, Json::Bool(true)),
            key,
        ) is None,
        key != "mcpServers"@ ==> crate::json::lookup(
            opt_member(
                "mcpServers"@,
                match c.mcp_servers {
                    Some(s) => Some(Json::Object(servers_members(s@))),
                    None => None,
                },
            ),
            key,
        ) is None,
        key != "customAgents"@ ==> crate::json::lookup(
            opt_member(
                "customAgents"@,
                match c.custom_agents {
                    Some(a) => Some(agents_params(a@)),
                    None => None,
                },
            ),
            key,
        ) is None,
{
    lemma_lookup_opt_member("sessionId"@, opt_str_json(c.session_id), key);
    lemma_lookup_opt_member("model"@, opt_str_json(c.model), key);
    lemma_lookup_member_if(c.tools@.len() > 0, "tools"@, tool_declarations(c.tools@), key);
    lemma_lookup_opt_member(
        "systemMessage"@,
        match c.system_message {
            Some(m) => Some(m.json()),
            None => None,
        },
        key,
    );
    lemma_lookup_opt_member("availableTools"@, opt_str_array(c.available_tools), key);
    lemma_lookup_opt_member("excludedTools"@, opt_str_array(c.excluded_tools), key);
    lemma_lookup_member_if(c.streaming, "streaming"@, Json::Bool(true), key);
    lemma_lookup_opt_member(
        "provider"@,
        match c.provider {
            Some(p) => Some(provider_params(p)),
            None => None,
        },
        key,
    );
    lemma_lookup_member_if(c.on_permission_request is Some, "requestPermission"@, Json::Bool(true), key);
    lemma_lookup_opt_member(
        "mcpServers"@,
        match c.mcp_servers {
            Some(s) => Some(Json::Object(servers_members(s@))),
            None => None,
        },
        key,
    );
    lemma_lookup_opt_member(
        "customAgents"@,
        match c.custom_agents {
            Some(a) => Some(agents_params(a@)),
            None => None,
        },
        key,
    );
}

/// `session.create` carries the tools the session may use under
/// `availableTools`, exactly the configured list, and no such member when
/// none is configured.
pub proof fn create_session_available_tools<H, P>(c: SessionConfig<H, P>)
    ensures
        lists_names(create_session_params(Some(c)), "availableTools"@, c.available_tools),
{
    lemma_param_names();
    lemma_create_lookup(c, "availableTools"@);
    lemma_create_parts(c, "availableTools"@);
    lemma_names_json(c.available_tools);
}

/// `session.create` carries the tools the session may not use under
/// `excludedTools`, exactly the configured list, and no such member when
/// none is configured.
pub proof fn create_session_excluded_tools<H, P>(c: SessionConfig<H, P>)
    ensures
        lists_names(create_session_params(Some(c)), "excludedTools"@, c.excluded_tools),
{
    lemma_param_names();
    lemma_create_lookup(c, "excludedTools"@);
    lemma_create_parts(c, "excludedTools"@);
    lemma_names_json(c.excluded_tools);
}

/// `session.create` declares the configured tools, one declaration per tool
/// in order, and has no `tools` member when there are none.
pub proof fn create_session_declares_tools<H, P>(c: SessionConfig<H, P>)
    ensures
        declares_tools(create_session_params(Some(c)), c.tools@),
{
    lemma_param_names();
    lemma_tool_declarations(c.tools@);
    lemma_create_lookup(c, "tools"@);
    lemma_create_parts(c, "tools"@);
}

/// `session.resume` names the session and declares the configured tools,
/// one declaration per tool in order (and none when there are none).
pub proof fn resume_session_declares_tools<H, P>(session_id: Seq<char>, c: ResumeSessionConfig<H, P>)
    ensures
        get(resume_session_params(session_id, Some(c)), "sessionId"@) == Some(Json::Str(session_id)),
        declares_tools(resume_session_params(session_id, Some(c)), c.tools@),
{
    broadcast use crate::json::lemma_lookup_append, crate::json::lemma_lookup_single, crate::json::lemma_lookup_empty;
    lemma_param_names();
    lemma_tool_declarations(c.tools@);
}

} // verus!
