//! Decisions of tool execution: which configured tool and server a request
//! names, the arguments sent, how a server's answer is read, how a server
//! connection is planned, and how the transport mode is settled. The host
//! performs the calls.
use vstd::prelude::*;

use crate::compose::{trim, trim_spec};
use crate::config::server::{ServerConfig, TransportType};
use crate::config::tool::ToolConfig;
use crate::decimal::{decimal, push_decimal};
use crate::fsm::first_field;
use crate::json::{
    array_items, as_bool, as_string, entries_view, is_null, json_as_bool, json_as_string, json_entries,
    json_is_null, json_items, json_object_of, json_string_of, object_entries, object_from, string_value,
};
use crate::string_map::StringMap;
use crate::text::{eq_ignore_ascii_case, eq_ignore_ascii_case_spec, lowercase, str_eq, to_lowercase};
use crate::tooling::transport::{HttpTransportConfig, TransportMode};

verus! {

/// Why a call to a tool server failed.
#[derive(Debug, Clone, PartialEq, Eq)]
pub enum ToolInvokeError {
    /// No server of that name is configured.
    NotConfigured { server: String },
    /// The transport failed.
    Transport { server: String, message: String },
}

/// Why a tool could not be run.
#[derive(Debug, Clone, PartialEq, Eq)]
pub enum ToolError {
    /// No tool of that name is configured.
    UnknownTool(String),
    /// The tool has no server.
    UnboundTool(String),
    /// The server failed to run the tool.
    Execution { tool: String, source: ToolInvokeError },
}

/// The outcome of running a tool.
#[derive(Debug, Clone)]
pub struct ToolExecution {
    pub tool: String,
    pub success: bool,
    pub input: serde_json::Value,
    pub output: serde_json::Value,
    pub message: Option<String>,
}

/// A tool as a server describes it.
#[derive(Debug, Clone)]
pub struct ServerToolInfo {
    pub name: String,
    pub description: Option<String>,
    pub input_schema: Option<serde_json::Value>,
}

// ── Resolving the tool ──────────────────────────────────────────────────────

/// Index of the last tool whose lower-cased name is `key`.
pub open spec fn last_tool_with_key(tools: Seq<ToolConfig>, key: Seq<char>) -> Option<int>
    decreases tools.len(),
{
    if tools.len() == 0 {
        None
    } else if lowercase(tools.last().name@) == key {
        Some(tools.len() - 1)
    } else {
        last_tool_with_key(tools.drop_last(), key)
    }
}

proof fn lemma_last_tool_in_range(tools: Seq<ToolConfig>, key: Seq<char>)
    ensures
        last_tool_with_key(tools, key) matches Some(i) ==> 0 <= i < tools.len(),
    decreases tools.len(),
{
    if tools.len() > 0 {
        lemma_last_tool_in_range(tools.drop_last(), key);
    }
}

/// Tool lookup matches names by their lower-case forms: a configured tool
/// whose lower-cased name is the lower-cased request (in particular one named
/// exactly as requested) is found. The tool found is the last such tool, and a
/// tool is only ever found for a request whose lower-cased name it shares.
pub proof fn law_tool_lookup_matches_names(tools: Seq<ToolConfig>, request: Seq<char>)
    ensures
        (exists|j: int| 0 <= j < tools.len() && lowercase(#[trigger] tools[j].name@) == lowercase(request))
            ==> last_tool_with_key(tools, lowercase(request)) is Some,
        last_tool_with_key(tools, lowercase(request)) matches Some(i) ==> {
            &&& 0 <= i < tools.len()
            &&& lowercase(tools[i].name@) == lowercase(request)
            &&& forall|k: int| i < k < tools.len() ==> lowercase(#[trigger] tools[k].name@) != lowercase(request)
        },
        last_tool_with_key(tools, lowercase(request)) is None ==> forall|k: int|
            0 <= k < tools.len() ==> lowercase(#[trigger] tools[k].name@) != lowercase(request),
    decreases tools.len(),
{
    if tools.len() > 0 {
        let rest = tools.drop_last();
        law_tool_lookup_matches_names(rest, request);
        if lowercase(tools.last().name@) != lowercase(request) {
            assert forall|k: int| 0 <= k < rest.len() implies #[trigger] rest[k] == tools[k] by {}
            if exists|j: int| 0 <= j < tools.len() && lowercase(#[trigger] tools[j].name@) == lowercase(request) {
                let j = choose|j: int| 0 <= j < tools.len() && lowercase(#[trigger] tools[j].name@) == lowercase(request);
                assert(j < rest.len());
                assert(lowercase(rest[j].name@) == lowercase(request));
            }
            if let Some(i) = last_tool_with_key(tools, lowercase(request)) {
                assert forall|k: int| i < k < tools.len() implies lowercase(#[trigger] tools[k].name@) != lowercase(request) by {
                    if k < rest.len() {
                        assert(rest[k] == tools[k]);
                    }
                }
            }
            assert forall|k: int| 0 <= k < tools.len() && last_tool_with_key(tools, lowercase(request)) is None
                implies lowercase(#[trigger] tools[k].name@) != lowercase(request) by {
                if k < rest.len() {
                    assert(rest[k] == tools[k]);
                }
            }
        }
    }
}

/// A tool named exactly as requested is always found (`resolve_tool` then
/// gives that tool or, without a server, `UnboundTool`, never `UnknownTool`).
pub proof fn law_exact_tool_name_is_found(tools: Seq<ToolConfig>, j: int)
    requires
        0 <= j < tools.len(),
    ensures
        last_tool_with_key(tools, lowercase(tools[j].name@)) matches Some(i) && j <= i < tools.len(),
{
    law_tool_lookup_matches_names(tools, tools[j].name@);
}

/// The configured tool and server a request names.
pub fn resolve_tool(tools: &[ToolConfig], tool_name: &str) -> (r: Result<(String, String), ToolError>)
    ensures
        match last_tool_with_key(tools@, lowercase(tool_name@)) {
            None => r matches Err(ToolError::UnknownTool(n)) && n@ == tool_name@,
            Some(i) => match tools@[i].server {
                Some(s) => r matches Ok((name, server)) && name == tools@[i].name && server == s,
                None => r == Err::<(String, String), ToolError>(ToolError::UnboundTool(tools@[i].name)),
            },
        },
{
    let key = to_lowercase(tool_name);
    let mut found: Option<usize> = None;
    let mut i: usize = 0;
    while i < tools.len()
        invariant
            i <= tools@.len(),
            found matches Some(j) ==> j < i && last_tool_with_key(tools@.take(i as int), key@) == Some(j as int),
            found is None ==> last_tool_with_key(tools@.take(i as int), key@) is None,
        decreases tools@.len() - i,
    {
        proof {
            assert(tools@.take(i + 1).drop_last() =~= tools@.take(i as int));
        }
        let lower = to_lowercase(tools[i].name.as_str());
        if str_eq(lower.as_str(), key.as_str()) {
            found = Some(i);
        }
        i = i + 1;
    }
    proof {
        assert(tools@.take(i as int) =~= tools@);
    }
    match found {
        None => Err(ToolError::UnknownTool(tool_name.to_owned())),
        Some(j) => {
            let tool = &tools[j];
            match &tool.server {
                Some(s) => Ok((tool.name.clone(), s.clone())),
                None => Err(ToolError::UnboundTool(tool.name.clone())),
            }
        },
    }
}

// ── Arguments and answers ───────────────────────────────────────────────────

/// The arguments sent to a tool: an empty object in place of null.
pub fn tool_arguments(input: &serde_json::Value) -> (r: serde_json::Value)
    ensures
        json_is_null(*input) ==> r == json_object_of(Seq::empty()),
        !json_is_null(*input) ==> r == *input,
{
    if is_null(input) {
        let empty: Vec<(String, serde_json::Value)> = Vec::new();
        proof {
            assert(entries_view(empty@) =~= Seq::<(Seq<char>, serde_json::Value)>::empty());
        }
        object_from(empty)
    } else {
        input.clone()
    }
}

/// The parameters of a `tools/call` request: the tool's name and its
/// arguments.
pub fn tool_call_params(tool: &str, arguments: &serde_json::Value) -> (r: serde_json::Value)
    ensures
        json_is_null(*arguments) ==> r == json_object_of(seq![("name"@, json_string_of(tool@)), ("arguments"@, json_object_of(Seq::empty()))]),
        !json_is_null(*arguments) ==> r == json_object_of(seq![("name"@, json_string_of(tool@)), ("arguments"@, *arguments)]),
{
    let args = tool_arguments(arguments);
    let mut entries: Vec<(String, serde_json::Value)> = Vec::new();
    entries.push(("name".to_owned(), string_value(tool)));
    entries.push(("arguments".to_owned(), args));
    proof {
        assert(entries_view(entries@) =~= seq![("name"@, json_string_of(tool@)), ("arguments"@, args)]);
    }
    object_from(entries)
}

/// A field of a JSON value: the first entry named `key` when it is an object.
pub open spec fn json_field(v: serde_json::Value, key: Seq<char>) -> Option<serde_json::Value> {
    match json_entries(v) {
        Some(es) => first_field(es, key),
        None => None,
    }
}

fn field(v: &serde_json::Value, key: &str) -> (r: Option<serde_json::Value>)
    ensures
        r == json_field(*v, key@),
{
    match object_entries(v) {
        Some(es) => find_in(&es, key),
        None => None,
    }
}

fn find_in(es: &Vec<(String, serde_json::Value)>, key: &str) -> (r: Option<serde_json::Value>)
    ensures
        r == first_field(entries_view(es@), key@),
{
    let ghost v = entries_view(es@);
    let mut i: usize = 0;
    proof {
        assert(v.subrange(0, v.len() as int) =~= v);
    }
    while i < es.len()
        invariant
            i <= es@.len(),
            v == entries_view(es@),
            first_field(v, key@) == first_field(v.subrange(i as int, v.len() as int), key@),
        decreases es@.len() - i,
    {
        let ghost rest = v.subrange(i as int, v.len() as int);
        proof {
            assert(rest.drop_first() =~= v.subrange(i + 1, v.len() as int));
            assert(rest[0] == v[i as int]);
        }
        if str_eq(es[i].0.as_str(), key) {
            return Some(es[i].1.clone());
        }
        i = i + 1;
    }
    proof {
        assert(v.subrange(i as int, v.len() as int).len() == 0);
    }
    None
}

/// The string of a JSON field, when it is a string.
pub open spec fn string_field(v: serde_json::Value, key: Seq<char>) -> Option<Seq<char>> {
    match json_field(v, key) {
        Some(x) => json_as_string(x),
        None => None,
    }
}

fn string_field_of(v: &serde_json::Value, key: &str) -> (r: Option<String>)
    ensures
        opt_string_view(r) == string_field(*v, key@),
{
    match field(v, key) {
        Some(x) => as_string(&x),
        None => None,
    }
}

/// The view of an optional string.
pub open spec fn opt_string_view(o: Option<String>) -> Option<Seq<char>> {
    match o {
        Some(s) => Some(s@),
        None => None,
    }
}

/// The trimmed text of the first block of `blocks` whose type is `text`
/// (without case) and whose text is not blank.
pub open spec fn first_text_block(blocks: Seq<serde_json::Value>) -> Option<Seq<char>>
    decreases blocks.len(),
{
    if blocks.len() == 0 {
        None
    } else {
        let b = blocks[0];
        let is_text = match string_field(b, "type"@) {
            Some(t) => eq_ignore_ascii_case_spec(t, "text"@),
            None => false,
        };
        match string_field(b, "text"@) {
            Some(text) => if is_text && trim_spec(text).len() > 0 {
                Some(trim_spec(text))
            } else {
                first_text_block(blocks.drop_first())
            },
            None => first_text_block(blocks.drop_first()),
        }
    }
}

/// The message of a tool answer: the first non-blank text block of its
/// `content` array, else the non-blank `structuredContent.error.message`, both
/// trimmed; none otherwise.
pub open spec fn tool_message(result: serde_json::Value) -> Option<Seq<char>> {
    let from_content = match json_field(result, "content"@) {
        Some(c) => match json_items(c) {
            Some(blocks) => first_text_block(blocks),
            None => None,
        },
        None => None,
    };
    if from_content is Some {
        from_content
    } else {
        let from_error = match json_field(result, "structuredContent"@) {
            Some(sc) => if json_entries(sc) is Some {
                match json_field(sc, "error"@) {
                    Some(err) => if json_entries(err) is Some {
                        string_field(err, "message"@)
                    } else {
                        None
                    },
                    None => None,
                }
            } else {
                None
            },
            None => None,
        };
        match from_error {
            Some(m) => if trim_spec(m).len() > 0 {
                Some(trim_spec(m))
            } else {
                None
            },
            None => None,
        }
    }
}

fn first_text_of(blocks: &Vec<serde_json::Value>) -> (r: Option<String>)
    ensures
        opt_string_view(r) == first_text_block(blocks@),
{
    let mut i: usize = 0;
    proof {
        assert(blocks@.skip(0) =~= blocks@);
    }
    while i < blocks.len()
        invariant
            i <= blocks@.len(),
            first_text_block(blocks@) == first_text_block(blocks@.skip(i as int)),
        decreases blocks@.len() - i,
    {
        let ghost rest = blocks@.skip(i as int);
        proof {
            assert(rest.drop_first() =~= blocks@.skip(i + 1));
            assert(rest[0] == blocks@[i as int]);
        }
        let block = &blocks[i];
        let is_text = match string_field_of(block, "type") {
            Some(t) => eq_ignore_ascii_case(t.as_str(), "text"),
            None => false,
        };
        match string_field_of(block, "text") {
            Some(text) => {
                let trimmed = trim(text.as_str());
                if is_text && trimmed.as_str().unicode_len() > 0 {
                    return Some(trimmed);
                }
            },
            None => {},
        }
        i = i + 1;
    }
    proof {
        assert(blocks@.skip(i as int).len() == 0);
    }
    None
}

/// The message of a tool answer (see `tool_message`).
pub fn extract_tool_message(result: &serde_json::Value) -> (r: Option<String>)
    ensures
        opt_string_view(r) == tool_message(*result),
{
    match field(result, "content") {
        Some(c) => match array_items(&c) {
            Some(blocks) => {
                let found = first_text_of(&blocks);
                if found.is_some() {
                    return found;
                }
            },
            None => {},
        },
        None => {},
    }
    let from_error = match field(result, "structuredContent") {
        Some(sc) => match object_entries(&sc) {
            Some(_) => match field(&sc, "error") {
                Some(err) => match object_entries(&err) {
                    Some(_) => string_field_of(&err, "message"),
                    None => None,
                },
                None => None,
            },
            None => None,
        },
        None => None,
    };
    match from_error {
        Some(m) => {
            let trimmed = trim(m.as_str());
            if trimmed.as_str().unicode_len() > 0 {
                Some(trimmed)
            } else {
                None
            }
        },
        None => None,
    }
}

/// Whether a tool answer reports an error: its `isError` field is `true`.
pub open spec fn answer_is_error(result: serde_json::Value) -> bool {
    match json_field(result, "isError"@) {
        Some(x) => json_as_bool(x) == Some(true),
        None => false,
    }
}

/// The execution record of a tool's answer: it succeeded unless the answer
/// reports an error; its message is read from the answer.
pub fn interpret_tool_result(tool: String, input: serde_json::Value, result: serde_json::Value) -> (r: ToolExecution)
    ensures
        r.tool == tool,
        r.input == input,
        r.output == result,
        r.success == !answer_is_error(result),
        opt_string_view(r.message) == tool_message(result),
{
    let is_error = match field(&result, "isError") {
        Some(x) => match as_bool(&x) {
            Some(b) => b,
            None => false,
        },
        None => false,
    };
    let message = extract_tool_message(&result);
    ToolExecution { tool, success: !is_error, input, output: result, message }
}

/// The error of a failed server call: an unconfigured server leaves the tool
/// unbound; any other failure is an execution error of the tool.
pub fn tool_error_from_invoke(tool: String, error: ToolInvokeError) -> (r: ToolError)
    ensures
        error is NotConfigured ==> r == ToolError::UnboundTool(tool),
        !(error is NotConfigured) ==> r == (ToolError::Execution { tool, source: error }),
{
    match error {
        ToolInvokeError::NotConfigured { .. } => ToolError::UnboundTool(tool),
        other => ToolError::Execution { tool, source: other },
    }
}

/// Whether a tool request asks for the tool catalogue: the name is
/// `list_tools` in any ASCII case.
pub fn is_catalogue_request(name: &str) -> (r: bool)
    ensures
        r == eq_ignore_ascii_case_spec(name@, "list_tools"@),
{
    eq_ignore_ascii_case(name, "list_tools")
}

/// The execution record of a catalogue request: the tool `list_tools`, always
/// successful, the input kept, the catalogue as output, and a message that
/// counts the `count` configured tools.
pub fn catalogue_execution(input: serde_json::Value, catalogue: serde_json::Value, count: usize) -> (r: ToolExecution)
    ensures
        r.tool@ == "list_tools"@,
        r.success,
        r.input == input,
        r.output == catalogue,
        r.message matches Some(m) && m@ == "Configured tools available: "@ + decimal(count as nat) + " item(s)."@,
{
    ToolExecution {
        tool: "list_tools".to_owned(),
        success: true,
        input,
        output: catalogue,
        message: Some(catalogue_message(count)),
    }
}

/// `Configured tools available: {count} item(s).`
pub fn catalogue_message(count: usize) -> (r: String)
    ensures
        r@ == "Configured tools available: "@ + decimal(count as nat) + " item(s)."@,
{
    let mut r = "Configured tools available: ".to_owned();
    push_decimal(&mut r, count as u64);
    r.append(" item(s).");
    r
}

/// The tools of a `tools/list` answer, in order: each entry with a string
/// name, its description when it is a string, and its input schema.
pub open spec fn listed_tool_ok(entry: serde_json::Value, t: ServerToolInfo) -> bool {
    &&& string_field(entry, "name"@) == Some(t.name@)
    &&& opt_string_view(t.description) == string_field(entry, "description"@)
    &&& t.input_schema == json_field(entry, "inputSchema"@)
}

/// The entries of a `tools/list` answer that have a string name, in order.
pub open spec fn named_entries(entries: Seq<serde_json::Value>) -> Seq<serde_json::Value> {
    entries.filter(|e: serde_json::Value| string_field(e, "name"@) is Some)
}

/// The tools of a `tools/list` answer; none when it has no `tools` array.
pub fn tools_from_list(result: &serde_json::Value) -> (r: Option<Vec<ServerToolInfo>>)
    ensures
        match json_field(*result, "tools"@) {
            Some(t) => match json_items(t) {
                Some(entries) => r matches Some(tools) && tools@.len() == named_entries(entries).len() && forall|i: int|
                    0 <= i < tools@.len() ==> listed_tool_ok(#[trigger] named_entries(entries)[i], tools@[i]),
                None => r is None,
            },
            None => r is None,
        },
{
    let tools_value = match field(result, "tools") {
        Some(t) => t,
        None => return None,
    };
    let entries = match array_items(&tools_value) {
        Some(e) => e,
        None => return None,
    };
    let mut out: Vec<ServerToolInfo> = Vec::new();
    let mut i: usize = 0;
    while i < entries.len()
        invariant
            i <= entries@.len(),
            out@.len() == named_entries(entries@.take(i as int)).len(),
            forall|j: int| 0 <= j < out@.len() ==> listed_tool_ok(#[trigger] named_entries(entries@.take(i as int))[j], out@[j]),
        decreases entries@.len() - i,
    {
        proof {
            reveal_with_fuel(Seq::filter, 1);
            assert(entries@.take(i + 1).drop_last() =~= entries@.take(i as int));
        }
        let entry = &entries[i];
        match string_field_of(entry, "name") {
            Some(name) => {
                let description = string_field_of(entry, "description");
                let input_schema = field(entry, "inputSchema");
                out.push(ServerToolInfo { name, description, input_schema });
            },
            None => {},
        }
        i = i + 1;
    }
    proof {
        assert(entries@.take(i as int) =~= entries@);
    }
    Some(out)
}

// ── Server connections ──────────────────────────────────────────────────────

/// How a server connection is made.
#[derive(Debug)]
pub enum InstancePlan {
    /// Start the configured process.
    Stdio(ServerConfig),
    /// Connect over HTTP with this transport configuration.
    Http(HttpTransportConfig),
}

/// Index of the last server configuration named `name`.
pub open spec fn last_server_named(servers: Seq<ServerConfig>, name: Seq<char>) -> Option<int>
    decreases servers.len(),
{
    if servers.len() == 0 {
        None
    } else if servers.last().name@ == name {
        Some(servers.len() - 1)
    } else {
        last_server_named(servers.drop_last(), name)
    }
}

fn copy_server(s: &ServerConfig) -> (r: ServerConfig)
    ensures
        crate::client::same_server(r, *s),
{
    crate::client::clone_server(s)
}

/// How to connect to server `server`: not configured when the name is empty or
/// unknown (the last configuration of a name wins); a STDIO server starts its
/// process; an HTTP server connects to its URL (missing URL: not configured,
/// named `{server}: missing URL for HTTP transport`) in automatic mode; a
/// built-in server needs no connection and is not configured here.
pub fn instance_plan(servers: &[ServerConfig], server: &str) -> (r: Result<InstancePlan, ToolInvokeError>)
    ensures
        server@.len() == 0 ==> (r matches Err(ToolInvokeError::NotConfigured { server: s }) && s@ == server@),
        server@.len() > 0 ==> match last_server_named(servers@, server@) {
            None => r matches Err(ToolInvokeError::NotConfigured { server: s }) && s@ == server@,
            Some(i) => match servers@[i].transport {
                TransportType::Stdio => r matches Ok(InstancePlan::Stdio(c)) && crate::client::same_server(c, servers@[i]),
                TransportType::Http => match servers@[i].url {
                    Some(u) => r matches Ok(InstancePlan::Http(h)) && h.name == servers@[i].name && h.url == u
                        && h.headers.entries_spec() == servers@[i].headers.entries_spec() && h.mode == TransportMode::Auto
                        && h.required_capabilities@.len() == 0,
                    None => r matches Err(ToolInvokeError::NotConfigured { server: s }) && s@ == server@
                        + ": missing URL for HTTP transport"@,
                },
                TransportType::Builtin => r matches Err(ToolInvokeError::NotConfigured { server: s }) && s@ == server@,
            },
        },
{
    if server.unicode_len() == 0 {
        return Err(ToolInvokeError::NotConfigured { server: server.to_owned() });
    }
    let mut found: Option<usize> = None;
    let mut i: usize = 0;
    while i < servers.len()
        invariant
            i <= servers@.len(),
            found matches Some(j) ==> j < i && last_server_named(servers@.take(i as int), server@) == Some(j as int),
            found is None ==> last_server_named(servers@.take(i as int), server@) is None,
        decreases servers@.len() - i,
    {
        proof {
            assert(servers@.take(i + 1).drop_last() =~= servers@.take(i as int));
        }
        if str_eq(servers[i].name.as_str(), server) {
            found = Some(i);
        }
        i = i + 1;
    }
    proof {
        assert(servers@.take(i as int) =~= servers@);
    }
    let j = match found {
        Some(j) => j,
        None => return Err(ToolInvokeError::NotConfigured { server: server.to_owned() }),
    };
    let config = &servers[j];
    match config.transport {
        TransportType::Stdio => Ok(InstancePlan::Stdio(copy_server(config))),
        TransportType::Http => match &config.url {
            Some(url) => Ok(
                InstancePlan::Http(
                    HttpTransportConfig {
                        name: config.name.clone(),
                        url: url.clone(),
                        headers: config.headers.clone(),
                        mode: TransportMode::Auto,
                        required_capabilities: Vec::new(),
                    },
                ),
            ),
            None => {
                let mut s = server.to_owned();
                s.append(": missing URL for HTTP transport");
                Err(ToolInvokeError::NotConfigured { server: s })
            },
        },
        TransportType::Builtin => Err(ToolInvokeError::NotConfigured { server: server.to_owned() }),
    }
}

// ── Transport mode ──────────────────────────────────────────────────────────

/// Whether connecting in `mode` first listens for a server-sent session
/// endpoint.
pub fn probes_sse(mode: TransportMode) -> (r: bool)
    ensures
        r == (mode != TransportMode::Stateless),
{
    !(mode == TransportMode::Stateless)
}

/// The mode a connection settles in, and whether requests go straight to the
/// configured URL.
#[derive(Debug, Clone, Copy, PartialEq, Eq, Structural)]
pub enum ModeOutcome {
    Use { mode: TransportMode, post_to_base_url: bool },
    Fail,
}

/// The mode of a connection configured in `configured`, given whether the
/// server-sent session endpoint arrived: stateful mode needs it, stateless mode
/// posts to the URL, automatic mode uses the endpoint when it arrived and falls
/// back to posting to the URL.
pub fn settle_mode(configured: TransportMode, endpoint_received: bool) -> (r: ModeOutcome)
    ensures
        configured == TransportMode::Stateful ==> r == if endpoint_received {
            ModeOutcome::Use { mode: TransportMode::Stateful, post_to_base_url: false }
        } else {
            ModeOutcome::Fail
        },
        configured == TransportMode::Stateless ==> r == (ModeOutcome::Use { mode: TransportMode::Stateless, post_to_base_url: true }),
        configured == TransportMode::Auto ==> r == if endpoint_received {
            ModeOutcome::Use { mode: TransportMode::Stateful, post_to_base_url: false }
        } else {
            ModeOutcome::Use { mode: TransportMode::Stateless, post_to_base_url: true }
        },
{
    match configured {
        TransportMode::Stateful => if endpoint_received {
            ModeOutcome::Use { mode: TransportMode::Stateful, post_to_base_url: false }
        } else {
            ModeOutcome::Fail
        },
        TransportMode::Stateless => ModeOutcome::Use { mode: TransportMode::Stateless, post_to_base_url: true },
        TransportMode::Auto => if endpoint_received {
            ModeOutcome::Use { mode: TransportMode::Stateful, post_to_base_url: false }
        } else {
            ModeOutcome::Use { mode: TransportMode::Stateless, post_to_base_url: true }
        },
    }
}

} // verus!
