//! JSON-RPC messages of the Agent Client Protocol and the requests that the
//! editor sends to an agent.
use vstd::prelude::*;
use crate::json::{
    Json, JsonValue, NumberValue, entries_view, items_view, json_str, json_u64, new_entries,
    new_items, push_entry, push_item,
};
use crate::json::ToJson;
use crate::session::AgentSession;
use crate::text::owned;

verus! {

/// The protocol version that the editor announces.
pub const ACP_PROTOCOL_VERSION: u32 = 1;

/// A request sent to the agent.
#[derive(Debug)]
pub struct JsonRpcRequest {
    pub jsonrpc: &'static str,
    pub id: u64,
    pub method: &'static str,
    pub params: Json,
}

/// A notification sent to the agent.
#[derive(Debug)]
pub struct JsonRpcNotification {
    pub jsonrpc: &'static str,
    pub method: &'static str,
    pub params: Json,
}

/// A message received from the agent.
#[derive(Debug)]
pub enum JsonRpcMessage {
    Response(JsonRpcResponse),
    Request(JsonRpcInboundRequest),
    Notification(JsonRpcInboundNotification),
}

/// A response from the agent to one of the editor's requests.
#[derive(Debug)]
pub struct JsonRpcResponse {
    pub jsonrpc: Option<String>,
    pub id: Json,
    pub result: Option<Json>,
    pub error: Option<JsonRpcError>,
}

/// The error member of a response.
#[derive(Debug)]
pub struct JsonRpcError {
    pub code: i64,
    pub message: String,
    pub data: Option<Json>,
}

/// A request from the agent to the editor.
#[derive(Debug)]
pub struct JsonRpcInboundRequest {
    pub jsonrpc: Option<String>,
    pub id: Json,
    pub method: String,
    pub params: Option<Json>,
}

/// A notification from the agent to the editor.
#[derive(Debug)]
pub struct JsonRpcInboundNotification {
    pub jsonrpc: Option<String>,
    pub method: String,
    pub params: Option<Json>,
}

/// Parameters of `initialize`.
#[derive(Debug)]
pub struct InitializeParams {
    pub protocol_version: u32,
    pub client_capabilities: ClientCapabilities,
    pub client_info: ImplementationInfo,
}

/// What the editor offers the agent.
#[derive(Debug)]
pub struct ClientCapabilities {
    pub fs: FileSystemCapabilities,
    pub terminal: bool,
}

/// File-system capabilities offered to the agent.
#[derive(Debug)]
pub struct FileSystemCapabilities {
    pub read_text_file: bool,
    pub write_text_file: bool,
}

/// Name, title and version of an implementation.
#[derive(Debug)]
pub struct ImplementationInfo {
    pub name: &'static str,
    pub title: &'static str,
    pub version: &'static str,
}

/// Parameters of `session/new`.
#[derive(Debug)]
pub struct NewSessionParams {
    pub cwd: String,
    pub mcp_servers: Vec<Json>,
    pub meta: Json,
}

/// Parameters of `session/prompt`.
#[derive(Debug)]
pub struct PromptParams {
    pub session_id: String,
    pub prompt: Vec<ContentBlock>,
    pub meta: Option<Json>,
}

/// Parameters of `session/set_mode`.
#[derive(Debug)]
pub struct SetModeParams {
    pub session_id: String,
    pub mode_id: String,
}

/// Parameters of `session/set_config_option`.
#[derive(Debug)]
pub struct SetConfigOptionParams {
    pub session_id: String,
    pub config_id: String,
    pub value: String,
}

/// A block of prompt content.
#[derive(Debug)]
pub enum ContentBlock {
    Text { text: String },
}

/// A JSON boolean.
pub open spec fn jbool(b: bool) -> JsonValue {
    JsonValue::Bool(b)
}

/// A JSON non-negative integer.
pub open spec fn jnum(n: u64) -> JsonValue {
    JsonValue::Number(NumberValue::PosInt(n))
}

impl FileSystemCapabilities {
    /// The JSON form: `{"readTextFile": .., "writeTextFile": ..}`.
    pub open spec fn json(self) -> JsonValue {
        JsonValue::Object(
            Seq::empty()
                .push(("readTextFile"@, jbool(self.read_text_file)))
                .push(("writeTextFile"@, jbool(self.write_text_file))),
        )
    }

    /// Builds the JSON form.
    pub fn to_json(&self) -> (r: Json)
        ensures
            r@ == self.json(),
    {
        let mut e = new_entries();
        push_entry(&mut e, "readTextFile", Json::Bool(self.read_text_file));
        push_entry(&mut e, "writeTextFile", Json::Bool(self.write_text_file));
        Json::Object(e)
    }
}

impl ClientCapabilities {
    /// The JSON form: `{"fs": .., "terminal": ..}`.
    pub open spec fn json(self) -> JsonValue {
        JsonValue::Object(Seq::empty()
            .push(("fs"@, self.fs.json()))
            .push(("terminal"@, jbool(self.terminal))))
    }

    /// Builds the JSON form.
    pub fn to_json(&self) -> (r: Json)
        ensures
            r@ == self.json(),
    {
        let mut e = new_entries();
        push_entry(&mut e, "fs", self.fs.to_json());
        push_entry(&mut e, "terminal", Json::Bool(self.terminal));
        Json::Object(e)
    }
}

impl ImplementationInfo {
    /// The JSON form: `{"name": .., "title": .., "version": ..}`.
    pub open spec fn json(self) -> JsonValue {
        JsonValue::Object(
            Seq::empty()
                .push(("name"@, JsonValue::Str(self.name@)))
                .push(("title"@, JsonValue::Str(self.title@)))
                .push(("version"@, JsonValue::Str(self.version@))),
        )
    }

    /// Builds the JSON form.
    pub fn to_json(&self) -> (r: Json)
        ensures
            r@ == self.json(),
    {
        let mut e = new_entries();
        push_entry(&mut e, "name", json_str(self.name));
        push_entry(&mut e, "title", json_str(self.title));
        push_entry(&mut e, "version", json_str(self.version));
        Json::Object(e)
    }
}

impl InitializeParams {
    /// The JSON form: `{"protocolVersion": .., "clientCapabilities": .., "clientInfo": ..}`.
    pub open spec fn json(self) -> JsonValue {
        JsonValue::Object(
            Seq::empty()
                .push(("protocolVersion"@, jnum(self.protocol_version as u64)))
                .push(("clientCapabilities"@, self.client_capabilities.json()))
                .push(("clientInfo"@, self.client_info.json())),
        )
    }

    /// Builds the JSON form.
    pub fn to_json(&self) -> (r: Json)
        ensures
            r@ == self.json(),
    {
        let mut e = new_entries();
        push_entry(&mut e, "protocolVersion", json_u64(self.protocol_version as u64));
        push_entry(&mut e, "clientCapabilities", self.client_capabilities.to_json());
        push_entry(&mut e, "clientInfo", self.client_info.to_json());
        Json::Object(e)
    }
}

impl SetModeParams {
    /// The JSON form: `{"sessionId": .., "modeId": ..}`.
    pub open spec fn json(self) -> JsonValue {
        JsonValue::Object(
            Seq::empty()
                .push(("sessionId"@, JsonValue::Str(self.session_id@)))
                .push(("modeId"@, JsonValue::Str(self.mode_id@))),
        )
    }

    /// Builds the JSON form.
    pub fn into_json(self) -> (r: Json)
        ensures
            r@ == self.json(),
    {
        let mut e = new_entries();
        push_entry(&mut e, "sessionId", Json::String(self.session_id));
        push_entry(&mut e, "modeId", Json::String(self.mode_id));
        Json::Object(e)
    }
}

impl SetConfigOptionParams {
    /// The JSON form: `{"sessionId": .., "configId": .., "value": ..}`.
    pub open spec fn json(self) -> JsonValue {
        JsonValue::Object(
            Seq::empty()
                .push(("sessionId"@, JsonValue::Str(self.session_id@)))
                .push(("configId"@, JsonValue::Str(self.config_id@)))
                .push(("value"@, JsonValue::Str(self.value@))),
        )
    }

    /// Builds the JSON form.
    pub fn into_json(self) -> (r: Json)
        ensures
            r@ == self.json(),
    {
        let mut e = new_entries();
        push_entry(&mut e, "sessionId", Json::String(self.session_id));
        push_entry(&mut e, "configId", Json::String(self.config_id));
        push_entry(&mut e, "value", Json::String(self.value));
        Json::Object(e)
    }
}

impl ContentBlock {
    /// The JSON form: `{"type": "text", "text": ..}`.
    pub open spec fn json(self) -> JsonValue {
        match self {
            ContentBlock::Text { text } => JsonValue::Object(
                Seq::empty()
                    .push(("type"@, JsonValue::Str("text"@)))
                    .push(("text"@, JsonValue::Str(text@))),
            ),
        }
    }

    /// Builds the JSON form.
    pub fn into_json(self) -> (r: Json)
        ensures
            r@ == self.json(),
    {
        match self {
            ContentBlock::Text { text } => {
                let mut e = new_entries();
                push_entry(&mut e, "type", json_str("text"));
                push_entry(&mut e, "text", Json::String(text));
                Json::Object(e)
            },
        }
    }
}

impl PromptParams {
    /// The JSON form: `{"sessionId": .., "prompt": [..], "_meta": ..}`, without
    /// `_meta` when there is none.
    pub open spec fn json(self) -> JsonValue {
        let base = Seq::empty()
            .push(("sessionId"@, JsonValue::Str(self.session_id@)))
            .push(("prompt"@, JsonValue::Array(self.prompt@.map_values(|b: ContentBlock| b.json()))));
        match self.meta {
            Some(m) => JsonValue::Object(base.push(("_meta"@, m@))),
            None => JsonValue::Object(base),
        }
    }

    /// Builds the JSON form.
    pub fn into_json(self) -> (r: Json)
        ensures
            r@ == self.json(),
    {
        let ghost blocks = self.prompt@;
        let PromptParams { session_id, prompt, meta } = self;
        let mut items = new_items();
        let mut rest = prompt;
        let ghost mut taken: Seq<ContentBlock> = Seq::empty();
        while rest.len() > 0
            invariant
                blocks == taken + rest@,
                items_view(items@) == taken.map_values(|b: ContentBlock| b.json()),
            decreases rest.len(),
        {
            let b = rest.remove(0);
            let ghost bv = b;
            push_item(&mut items, b.into_json());
            proof {
                assert(taken.push(bv).map_values(|b: ContentBlock| b.json()) =~= taken.map_values(
                    |b: ContentBlock| b.json(),
                ).push(bv.json()));
                taken = taken.push(bv);
            }
        }
        let mut e = new_entries();
        push_entry(&mut e, "sessionId", Json::String(session_id));
        push_entry(&mut e, "prompt", Json::Array(items));
        match meta {
            Some(m) => push_entry(&mut e, "_meta", m),
            None => {},
        }
        Json::Object(e)
    }
}

/// The view of an optional JSON value.
pub open spec fn opt_json_view(j: Option<Json>) -> Option<JsonValue> {
    match j {
        Some(v) => Some(v@),
        None => None,
    }
}

/// The parameters of a prompt request carrying one text block.
pub open spec fn prompt_params_value(
    session_id: Seq<char>,
    text: Seq<char>,
    meta: Option<JsonValue>,
) -> JsonValue {
    let block = JsonValue::Object(
        Seq::empty().push(("type"@, JsonValue::Str("text"@))).push(("text"@, JsonValue::Str(text))),
    );
    let base = Seq::empty().push(("sessionId"@, JsonValue::Str(session_id))).push(
        ("prompt"@, JsonValue::Array(Seq::empty().push(block))),
    );
    match meta {
        Some(m) => JsonValue::Object(base.push(("_meta"@, m))),
        None => JsonValue::Object(base),
    }
}

impl JsonRpcRequest {
    /// The request is a JSON-RPC 2.0 request with the given id, method and parameters.
    pub open spec fn is_request(self, id: u64, method: Seq<char>, params: JsonValue) -> bool {
        &&& self.jsonrpc@ == "2.0"@
        &&& self.id == id
        &&& self.method@ == method
        &&& self.params@ == params
    }

    /// The JSON form of the whole request.
    pub open spec fn json(self) -> JsonValue {
        JsonValue::Object(
            Seq::empty().push(("jsonrpc"@, JsonValue::Str(self.jsonrpc@))).push(
                ("id"@, jnum(self.id)),
            ).push(("method"@, JsonValue::Str(self.method@))).push(("params"@, self.params@)),
        )
    }

    /// Builds the JSON form of the whole request.
    pub fn into_json(self) -> (r: Json)
        ensures
            r@ == self.json(),
    {
        let mut e = new_entries();
        push_entry(&mut e, "jsonrpc", json_str(self.jsonrpc));
        push_entry(&mut e, "id", json_u64(self.id));
        push_entry(&mut e, "method", json_str(self.method));
        push_entry(&mut e, "params", self.params);
        Json::Object(e)
    }
}

/// The `initialize` request: protocol version, no file-system or terminal
/// capabilities, and the editor's name, title and version.
pub fn initialize_request(id: u64, version: &'static str) -> (r: JsonRpcRequest)
    ensures
        r.is_request(
            id,
            "initialize"@,
            (InitializeParams {
                protocol_version: ACP_PROTOCOL_VERSION,
                client_capabilities: ClientCapabilities {
                    fs: FileSystemCapabilities { read_text_file: false, write_text_file: false },
                    terminal: false,
                },
                client_info: ImplementationInfo { name: "helix", title: "Helix", version: version },
            }).json(),
        ),
{
    let params = InitializeParams {
        protocol_version: ACP_PROTOCOL_VERSION,
        client_capabilities: ClientCapabilities {
            fs: FileSystemCapabilities { read_text_file: false, write_text_file: false },
            terminal: false,
        },
        client_info: ImplementationInfo { name: "helix", title: "Helix", version: version },
    };
    JsonRpcRequest { jsonrpc: "2.0", id, method: "initialize", params: params.to_json() }
}

/// The `session/prompt` request with one text block and optional metadata.
pub fn prompt_request(id: u64, session_id: String, prompt: String, meta: Option<Json>) -> (r:
    JsonRpcRequest)
    ensures
        r.is_request(
            id,
            "session/prompt"@,
            prompt_params_value(session_id@, prompt@, opt_json_view(meta)),
        ),
{
    let ghost text = prompt@;
    let mut blocks: Vec<ContentBlock> = Vec::new();
    blocks.push(ContentBlock::Text { text: prompt });
    let params = PromptParams { session_id, prompt: blocks, meta };
    let ghost pv = params;
    let j = params.into_json();
    proof {
        assert(pv.prompt@.map_values(|b: ContentBlock| b.json()) =~= Seq::empty().push(
            JsonValue::Object(
                Seq::empty().push(("type"@, JsonValue::Str("text"@))).push(
                    ("text"@, JsonValue::Str(text)),
                ),
            ),
        ));
    }
    JsonRpcRequest { jsonrpc: "2.0", id, method: "session/prompt", params: j }
}

/// The `session/set_mode` request.
pub fn set_mode_request(id: u64, session_id: String, mode_id: String) -> (r: JsonRpcRequest)
    ensures
        r.is_request(
            id,
            "session/set_mode"@,
            JsonValue::Object(
                Seq::empty().push(("sessionId"@, JsonValue::Str(session_id@))).push(
                    ("modeId"@, JsonValue::Str(mode_id@)),
                ),
            ),
        ),
{
    let params = SetModeParams { session_id, mode_id };
    JsonRpcRequest { jsonrpc: "2.0", id, method: "session/set_mode", params: params.into_json() }
}

/// The `session/set_config_option` request.
pub fn set_config_option_request(
    id: u64,
    session_id: String,
    config_id: String,
    value: String,
) -> (r: JsonRpcRequest)
    ensures
        r.is_request(
            id,
            "session/set_config_option"@,
            JsonValue::Object(
                Seq::empty().push(("sessionId"@, JsonValue::Str(session_id@))).push(
                    ("configId"@, JsonValue::Str(config_id@)),
                ).push(("value"@, JsonValue::Str(value@))),
            ),
        ),
{
    let params = SetConfigOptionParams { session_id, config_id, value };
    JsonRpcRequest {
        jsonrpc: "2.0",
        id,
        method: "session/set_config_option",
        params: params.into_json(),
    }
}

/// The parameters of `session/new`: the working directory, no MCP servers,
/// and the session under `_meta.helix.session`.
pub open spec fn new_session_params_value(cwd: Seq<char>, session: JsonValue) -> JsonValue {
    let helix = JsonValue::Object(Seq::empty().push(("session"@, session)));
    JsonValue::Object(
        Seq::empty().push(("cwd"@, JsonValue::Str(cwd))).push(
            ("mcpServers"@, JsonValue::Array(Seq::empty())),
        ).push(("_meta"@, JsonValue::Object(Seq::empty().push(("helix"@, helix))))),
    )
}

impl NewSessionParams {
    /// The JSON form: `{"cwd": .., "mcpServers": [..], "_meta": ..}`.
    pub open spec fn json(self) -> JsonValue {
        JsonValue::Object(
            Seq::empty().push(("cwd"@, JsonValue::Str(self.cwd@))).push(
                ("mcpServers"@, JsonValue::Array(items_view(self.mcp_servers@))),
            ).push(("_meta"@, self.meta@)),
        )
    }

    /// Builds the JSON form.
    pub fn into_json(self) -> (r: Json)
        ensures
            r@ == self.json(),
    {
        let mut e = new_entries();
        push_entry(&mut e, "cwd", Json::String(self.cwd));
        push_entry(&mut e, "mcpServers", Json::Array(self.mcp_servers));
        push_entry(&mut e, "_meta", self.meta);
        Json::Object(e)
    }
}

/// The `session/new` request for a session: its working directory and the
/// whole session as metadata.
pub fn new_session_request(id: u64, session: AgentSession) -> (r: JsonRpcRequest)
    ensures
        r.is_request(
            id,
            "session/new"@,
            new_session_params_value(session.context.cwd@, session.json()),
        ),
{
    let cwd = session.context.cwd.clone();
    let mut helix = new_entries();
    push_entry(&mut helix, "session", session.to_json());
    let mut meta = new_entries();
    push_entry(&mut meta, "helix", Json::Object(helix));
    let servers = new_items();
    let params = NewSessionParams { cwd, mcp_servers: servers, meta: Json::Object(meta) };
    JsonRpcRequest { jsonrpc: "2.0", id, method: "session/new", params: params.into_json() }
}

/// The handshake that opens a session: `initialize` (request 1), then
/// `session/new` (request 2).
pub fn session_handshake(session: AgentSession, version: &'static str) -> (r: Vec<JsonRpcRequest>)
    ensures
        r@.len() == 2,
        r@[0].is_request(
            1,
            "initialize"@,
            (InitializeParams {
                protocol_version: ACP_PROTOCOL_VERSION,
                client_capabilities: ClientCapabilities {
                    fs: FileSystemCapabilities { read_text_file: false, write_text_file: false },
                    terminal: false,
                },
                client_info: ImplementationInfo { name: "helix", title: "Helix", version: version },
            }).json(),
        ),
        r@[1].is_request(
            2,
            "session/new"@,
            new_session_params_value(session.context.cwd@, session.json()),
        ),
{
    let mut r: Vec<JsonRpcRequest> = Vec::new();
    r.push(initialize_request(1, version));
    r.push(new_session_request(2, session));
    r
}

} // verus!
