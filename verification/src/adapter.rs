//! The `codex exec` adapter: a minimal ACP agent that answers `initialize`
//! and `session/new` itself and runs each prompt through `codex exec`.
//!
//! This module decides what each incoming message asks for and builds the
//! replies; the program around it reads and writes the framed messages and
//! runs the command.
use vstd::prelude::*;
use crate::json::{
    Json, JsonNumber, JsonValue, NumberValue, json_str, json_u64, new_entries, new_items,
    push_entry,
};
use crate::modes::{str_members, string_members};
use crate::session::now_millis;
use crate::text::{
    contains_seq, decimal, is_blank, join, join_strings, occurs_at, owned, push_decimal, str_eq,
    strings_view, trim, trimmed,
};

verus! {

/// The protocol version answered when the client names none.
pub const ADAPTER_PROTOCOL_VERSION: u64 = 1;

/// What an incoming message asks the adapter to do.
#[derive(Debug)]
pub enum AdapterRequest {
    /// A notification or a message without a method: nothing to answer.
    Ignore,
    /// `initialize` with the client's protocol version.
    Initialize { id: Json, protocol_version: u64 },
    /// `session/new` with the client's working directory, if it gave one.
    NewSession { id: Json, cwd: Option<String> },
    /// `session/prompt`: the session, the prompt text and the editor context.
    Prompt { id: Json, session_id: String, prompt: String, context: Option<Json> },
    /// Any other request.
    Unknown { id: Json, method: String },
}

/// The session the adapter serves.
#[derive(Debug)]
pub struct AdapterState {
    pub session_id: Option<String>,
    pub cwd: Option<String>,
}

/// The text of a prompt: the `text` of each prompt block, one per line;
/// empty when that is blank or there are no blocks.
pub open spec fn prompt_text_of(params: JsonValue) -> Seq<char> {
    match params.array_field("prompt"@) {
        Some(blocks) => {
            let j = join(str_members(blocks, "text"@), "\n"@);
            if trim(j).len() > 0 {
                j
            } else {
                Seq::empty()
            }
        },
        None => Seq::empty(),
    }
}

/// The text of a prompt request.
pub fn prompt_text(params: &Json) -> (r: String)
    ensures
        r@ == prompt_text_of(params@),
{
    let blocks = match params.get_array("prompt") {
        Some(b) => b,
        None => return String::new(),
    };
    let texts = string_members(blocks, "text");
    let joined = join_strings(&texts, "\n");
    if is_blank(joined.as_str()) {
        String::new()
    } else {
        joined
    }
}

/// The editor context that a prompt carries in `_meta.helix.context`.
pub open spec fn helix_context_of(meta: Option<JsonValue>) -> Option<JsonValue> {
    match meta {
        Some(m) => match m.field("helix"@) {
            Some(h) => h.field("context"@),
            None => None,
        },
        None => None,
    }
}

/// The editor context that a prompt carries.
pub fn helix_context<'a>(meta: Option<&'a Json>) -> (r: Option<&'a Json>)
    ensures
        match r {
            Some(c) => helix_context_of(
                match meta {
                    Some(m) => Some(m@),
                    None => None,
                },
            ) == Some(c@),
            None => helix_context_of(
                match meta {
                    Some(m) => Some(m@),
                    None => None,
                },
            ) is None,
        },
{
    match meta {
        Some(m) => match m.get("helix") {
            Some(h) => h.get("context"),
            None => None,
        },
        None => None,
    }
}

/// The prompt given to `codex exec`: with the editor context (as JSON text),
/// the read-only instructions, the context and the user's prompt; without
/// it, the user's prompt alone.
pub open spec fn codex_prompt_text(prompt: Seq<char>, context_json: Option<Seq<char>>) -> Seq<char> {
    match context_json {
        Some(c) => "You are being invoked from Helix through ACP.\n\nFor this adapter MVP, do not modify files or run write operations. If code changes are needed, describe the change or provide a patch/diff in your final answer for Helix to review later.\n\nHelix editor context JSON:\n```json\n"@
            + c + "\n```\n\nUser prompt:\n"@ + prompt,
        None => prompt,
    }
}

/// Builds the prompt given to `codex exec`.
pub fn codex_prompt(prompt: &str, context_json: Option<&str>) -> (r: String)
    ensures
        r@ == codex_prompt_text(
            prompt@,
            match context_json {
                Some(c) => Some(c@),
                None => None,
            },
        ),
{
    match context_json {
        Some(c) => {
            let mut r = owned(
                "You are being invoked from Helix through ACP.\n\nFor this adapter MVP, do not modify files or run write operations. If code changes are needed, describe the change or provide a patch/diff in your final answer for Helix to review later.\n\nHelix editor context JSON:\n```json\n",
            );
            r.append(c);
            r.append("\n```\n\nUser prompt:\n");
            r.append(prompt);
            r
        },
        None => owned(prompt),
    }
}

/// The arguments of the `codex exec` command line.
pub open spec fn codex_exec_args_of(cwd: Option<Seq<char>>) -> Seq<Seq<char>> {
    let base = seq![
        "exec"@,
        "--color"@,
        "never"@,
        "--skip-git-repo-check"@,
        "--sandbox"@,
        "read-only"@,
    ];
    match cwd {
        Some(c) => base + seq!["--cd"@, c, "-"@],
        None => base + seq!["-"@],
    }
}

/// Law: `codex exec` always runs in the read-only sandbox and reads the
/// prompt from stdin, whatever the working directory.
pub proof fn law_codex_runs_read_only(cwd: Option<Seq<char>>)
    ensures
        codex_exec_args_of(cwd)[0] == "exec"@,
        codex_exec_args_of(cwd)[4] == "--sandbox"@,
        codex_exec_args_of(cwd)[5] == "read-only"@,
        codex_exec_args_of(cwd).last() == "-"@,
{
}

/// The arguments of the `codex exec` command line: read-only sandbox, no
/// colour, the working directory when known, and the prompt on stdin.
pub fn codex_exec_args(cwd: Option<&str>) -> (r: Vec<String>)
    ensures
        strings_view(r@) == codex_exec_args_of(
            match cwd {
                Some(c) => Some(c@),
                None => None,
            },
        ),
{
    let mut r: Vec<String> = Vec::new();
    r.push(owned("exec"));
    r.push(owned("--color"));
    r.push(owned("never"));
    r.push(owned("--skip-git-repo-check"));
    r.push(owned("--sandbox"));
    r.push(owned("read-only"));
    match cwd {
        Some(c) => {
            r.push(owned("--cd"));
            r.push(owned(c));
        },
        None => {},
    }
    r.push(owned("-"));
    assert(strings_view(r@) =~= codex_exec_args_of(
        match cwd {
            Some(c) => Some(c@),
            None => None,
        },
    ));
    r
}

/// The text sent back for a `codex exec` run: its trimmed output on success
/// (a note when there is none), else the exit status and the trimmed error
/// output.
pub open spec fn codex_reply_text(
    success: bool,
    stdout: Seq<char>,
    stderr: Seq<char>,
    status: Seq<char>,
) -> Seq<char> {
    if success {
        if trim(stdout).len() == 0 {
            "(codex exec completed without output)"@
        } else {
            trim(stdout)
        }
    } else if trim(stderr).len() == 0 {
        "codex exec exited with "@ + status
    } else {
        "codex exec exited with "@ + status + ":\n"@ + trim(stderr)
    }
}

/// The text sent back for a `codex exec` run.
pub fn codex_exec_reply(success: bool, stdout: &str, stderr: &str, status: &str) -> (r: String)
    ensures
        r@ == codex_reply_text(success, stdout@, stderr@, status@),
{
    let out = trimmed(stdout);
    let err = trimmed(stderr);
    if success {
        if out.as_str().is_empty() {
            owned("(codex exec completed without output)")
        } else {
            out
        }
    } else if err.as_str().is_empty() {
        let mut r = owned("codex exec exited with ");
        r.append(status);
        r
    } else {
        let mut r = owned("codex exec exited with ");
        r.append(status);
        r.append(":\n");
        r.append(err.as_str());
        r
    }
}

/// The session id for a creation time: `helix-codex-` and the milliseconds.
pub fn new_session_id_at(millis: u128) -> (r: String)
    ensures
        r@ == "helix-codex-"@ + decimal(millis as nat),
{
    let mut r = owned("helix-codex-");
    push_decimal(&mut r, millis);
    r
}

/// A fresh adapter session id from the clock.
pub fn new_session_id() -> (r: String)
    ensures
        exists|m: u128| r@ == "helix-codex-"@ + decimal(m as nat),
{
    new_session_id_at(now_millis())
}

/// The `initialize` result: the protocol version, the adapter's
/// capabilities (embedded context only) and its name and version.
pub open spec fn initialize_response_value(
    id: JsonValue,
    protocol_version: u64,
    version: Seq<char>,
) -> JsonValue {
    let f = JsonValue::Bool(false);
    let capabilities = JsonValue::Object(
        Seq::empty().push(("loadSession"@, f)).push(
            (
                "mcpCapabilities"@,
                JsonValue::Object(Seq::empty().push(("http"@, f)).push(("sse"@, f))),
            ),
        ).push(
            (
                "promptCapabilities"@,
                JsonValue::Object(
                    Seq::empty().push(("audio"@, f)).push(
                        ("embeddedContext"@, JsonValue::Bool(true)),
                    ).push(("image"@, f)),
                ),
            ),
        ).push(("sessionCapabilities"@, JsonValue::Object(Seq::empty()))),
    );
    let info = JsonValue::Object(
        Seq::empty().push(("name"@, JsonValue::Str("helix-codex-agent"@))).push(
            ("title"@, JsonValue::Str("Helix Codex Agent"@)),
        ).push(("version"@, JsonValue::Str(version))),
    );
    let result = JsonValue::Object(
        Seq::empty().push(
            ("protocolVersion"@, JsonValue::Number(NumberValue::PosInt(protocol_version))),
        ).push(("agentCapabilities"@, capabilities)).push(("agentInfo"@, info)).push(
            ("authMethods"@, JsonValue::Array(Seq::empty())),
        ),
    );
    JsonValue::Object(
        Seq::empty().push(("jsonrpc"@, JsonValue::Str("2.0"@))).push(("id"@, id)).push(
            ("result"@, result),
        ),
    )
}

/// The answer to `initialize`.
pub fn initialize_response(id: Json, protocol_version: u64, version: &str) -> (r: Json)
    ensures
        r@ == initialize_response_value(id@, protocol_version, version@),
{
    let mut mcp = new_entries();
    push_entry(&mut mcp, "http", Json::Bool(false));
    push_entry(&mut mcp, "sse", Json::Bool(false));
    let mut prompt = new_entries();
    push_entry(&mut prompt, "audio", Json::Bool(false));
    push_entry(&mut prompt, "embeddedContext", Json::Bool(true));
    push_entry(&mut prompt, "image", Json::Bool(false));
    let mut caps = new_entries();
    push_entry(&mut caps, "loadSession", Json::Bool(false));
    push_entry(&mut caps, "mcpCapabilities", Json::Object(mcp));
    push_entry(&mut caps, "promptCapabilities", Json::Object(prompt));
    push_entry(&mut caps, "sessionCapabilities", Json::Object(new_entries()));
    let mut info = new_entries();
    push_entry(&mut info, "name", json_str("helix-codex-agent"));
    push_entry(&mut info, "title", json_str("Helix Codex Agent"));
    push_entry(&mut info, "version", json_str(version));
    let mut result = new_entries();
    push_entry(&mut result, "protocolVersion", json_u64(protocol_version));
    push_entry(&mut result, "agentCapabilities", Json::Object(caps));
    push_entry(&mut result, "agentInfo", Json::Object(info));
    push_entry(&mut result, "authMethods", Json::Array(new_items()));
    let mut e = new_entries();
    push_entry(&mut e, "jsonrpc", json_str("2.0"));
    push_entry(&mut e, "id", id);
    push_entry(&mut e, "result", Json::Object(result));
    Json::Object(e)
}

/// The error answer to an unknown method.
pub open spec fn method_not_found_value(id: JsonValue, method: Seq<char>) -> JsonValue {
    let error = JsonValue::Object(
        Seq::empty().push(("code"@, JsonValue::Number(NumberValue::NegInt(-32601i64)))).push(
            ("message"@, JsonValue::Str("method not found: "@ + method)),
        ),
    );
    JsonValue::Object(
        Seq::empty().push(("jsonrpc"@, JsonValue::Str("2.0"@))).push(("id"@, id)).push(
            ("error"@, error),
        ),
    )
}

/// The error answer to an unknown method.
pub fn method_not_found(id: Json, method: &str) -> (r: Json)
    ensures
        r@ == method_not_found_value(id@, method@),
{
    let mut message = owned("method not found: ");
    message.append(method);
    let mut error = new_entries();
    push_entry(&mut error, "code", Json::Number(JsonNumber::NegInt(-32601)));
    push_entry(&mut error, "message", Json::String(message));
    let mut e = new_entries();
    push_entry(&mut e, "jsonrpc", json_str("2.0"));
    push_entry(&mut e, "id", id);
    push_entry(&mut e, "error", Json::Object(error));
    Json::Object(e)
}

/// The answer to `session/new`.
pub open spec fn session_new_response_value(id: JsonValue, session_id: Seq<char>) -> JsonValue {
    let meta = JsonValue::Object(
        Seq::empty().push(
            (
                "helixCodexAgent"@,
                JsonValue::Object(Seq::empty().push(("backend"@, JsonValue::Str("codex exec"@)))),
            ),
        ),
    );
    JsonValue::Object(
        Seq::empty().push(("jsonrpc"@, JsonValue::Str("2.0"@))).push(("id"@, id)).push(
            (
                "result"@,
                JsonValue::Object(
                    Seq::empty().push(("sessionId"@, JsonValue::Str(session_id))).push(
                        ("_meta"@, meta),
                    ),
                ),
            ),
        ),
    )
}

/// Opens the session: records the working directory (the client's, else
/// the given fallback) and a fresh session id, and builds the answer.
pub fn start_session(
    state: &mut AdapterState,
    id: Json,
    cwd: Option<String>,
    fallback_cwd: Option<String>,
    session_id: String,
) -> (r: Json)
    ensures
        final(state).cwd == match cwd {
            Some(c) => Some(c),
            None => fallback_cwd,
        },
        final(state).session_id == Some(session_id),
        r@ == session_new_response_value(id@, session_id@),
{
    state.cwd = match cwd {
        Some(c) => Some(c),
        None => fallback_cwd,
    };
    let mut backend = new_entries();
    push_entry(&mut backend, "backend", json_str("codex exec"));
    let mut meta = new_entries();
    push_entry(&mut meta, "helixCodexAgent", Json::Object(backend));
    let mut result = new_entries();
    push_entry(&mut result, "sessionId", Json::String(session_id.clone()));
    push_entry(&mut result, "_meta", Json::Object(meta));
    let mut e = new_entries();
    push_entry(&mut e, "jsonrpc", json_str("2.0"));
    push_entry(&mut e, "id", id);
    push_entry(&mut e, "result", Json::Object(result));
    state.session_id = Some(session_id);
    Json::Object(e)
}

/// The streamed answer text of a prompt.
pub open spec fn agent_message_chunk_value(session_id: Seq<char>, text: Seq<char>) -> JsonValue {
    let content = JsonValue::Object(
        Seq::empty().push(("type"@, JsonValue::Str("text"@))).push(("text"@, JsonValue::Str(text))),
    );
    let update = JsonValue::Object(
        Seq::empty().push(("sessionUpdate"@, JsonValue::Str("agent_message_chunk"@))).push(
            ("content"@, content),
        ),
    );
    JsonValue::Object(
        Seq::empty().push(("jsonrpc"@, JsonValue::Str("2.0"@))).push(
            ("method"@, JsonValue::Str("session/update"@)),
        ).push(
            (
                "params"@,
                JsonValue::Object(
                    Seq::empty().push(("sessionId"@, JsonValue::Str(session_id))).push(
                        ("update"@, update),
                    ),
                ),
            ),
        ),
    )
}

/// The `session/update` notification that carries the answer text.
pub fn agent_message_chunk(session_id: &str, text: String) -> (r: Json)
    ensures
        r@ == agent_message_chunk_value(session_id@, text@),
{
    let mut content = new_entries();
    push_entry(&mut content, "type", json_str("text"));
    push_entry(&mut content, "text", Json::String(text));
    let mut update = new_entries();
    push_entry(&mut update, "sessionUpdate", json_str("agent_message_chunk"));
    push_entry(&mut update, "content", Json::Object(content));
    let mut params = new_entries();
    push_entry(&mut params, "sessionId", json_str(session_id));
    push_entry(&mut params, "update", Json::Object(update));
    let mut e = new_entries();
    push_entry(&mut e, "jsonrpc", json_str("2.0"));
    push_entry(&mut e, "method", json_str("session/update"));
    push_entry(&mut e, "params", Json::Object(params));
    Json::Object(e)
}

/// The answer that ends a prompt turn.
pub open spec fn end_turn_value(id: JsonValue) -> JsonValue {
    JsonValue::Object(
        Seq::empty().push(("jsonrpc"@, JsonValue::Str("2.0"@))).push(("id"@, id)).push(
            (
                "result"@,
                JsonValue::Object(Seq::empty().push(("stopReason"@, JsonValue::Str("end_turn"@)))),
            ),
        ),
    )
}

/// The answer that ends a prompt turn.
pub fn end_turn_response(id: Json) -> (r: Json)
    ensures
        r@ == end_turn_value(id@),
{
    let mut result = new_entries();
    push_entry(&mut result, "stopReason", json_str("end_turn"));
    let mut e = new_entries();
    push_entry(&mut e, "jsonrpc", json_str("2.0"));
    push_entry(&mut e, "id", id);
    push_entry(&mut e, "result", Json::Object(result));
    Json::Object(e)
}

/// `r` is what the adapter makes of `message`: nothing without a string
/// method or an id; else by method, with the parameters (`null` when
/// absent): the protocol version defaults to [`ADAPTER_PROTOCOL_VERSION`],
/// a prompt's session id to `helix-codex-session`.
pub open spec fn routed(message: JsonValue, r: AdapterRequest) -> bool {
    match message.str_field("method"@) {
        None => r is Ignore,
        Some(method) => match message.field("id"@) {
            None => r is Ignore,
            Some(id) => {
                let params = match message.field("params"@) {
                    Some(p) => p,
                    None => JsonValue::Null,
                };
                if method == "initialize"@ {
                    r matches AdapterRequest::Initialize { id: i, protocol_version } && i@ == id
                        && protocol_version == match params.field("protocolVersion"@) {
                        Some(v) => match v.u64_value() {
                            Some(n) => n,
                            None => ADAPTER_PROTOCOL_VERSION,
                        },
                        None => ADAPTER_PROTOCOL_VERSION,
                    }
                } else if method == "session/new"@ {
                    r matches AdapterRequest::NewSession { id: i, cwd } && i@ == id && match cwd {
                        Some(c) => params.str_field("cwd"@) == Some(c@),
                        None => params.str_field("cwd"@) is None,
                    }
                } else if method == "session/prompt"@ {
                    r matches AdapterRequest::Prompt { id: i, session_id, prompt, context } && i@
                        == id && session_id@ == match params.str_field("sessionId"@) {
                        Some(s) => s,
                        None => "helix-codex-session"@,
                    } && prompt@ == prompt_text_of(params) && match context {
                        Some(c) => helix_context_of(params.field("_meta"@)) == Some(c@),
                        None => helix_context_of(params.field("_meta"@)) is None,
                    }
                } else {
                    r matches AdapterRequest::Unknown { id: i, method: m } && i@ == id && m@
                        == method
                }
            },
        },
    }
}

/// Decides what an incoming message asks for.
pub fn route(message: &Json) -> (r: AdapterRequest)
    ensures
        routed(message@, r),
{
    let method = match message.get_str("method") {
        Some(m) => m,
        None => return AdapterRequest::Ignore,
    };
    let id = match message.get("id") {
        Some(i) => i.deep_copy(),
        None => return AdapterRequest::Ignore,
    };
    let null = Json::Null;
    let params = match message.get("params") {
        Some(p) => p,
        None => &null,
    };
    if str_eq(method, "initialize") {
        let protocol_version = match params.get("protocolVersion") {
            Some(v) => match v.as_u64() {
                Some(n) => n,
                None => ADAPTER_PROTOCOL_VERSION,
            },
            None => ADAPTER_PROTOCOL_VERSION,
        };
        AdapterRequest::Initialize { id, protocol_version }
    } else if str_eq(method, "session/new") {
        let cwd = match params.get_str("cwd") {
            Some(c) => Some(owned(c)),
            None => None,
        };
        AdapterRequest::NewSession { id, cwd }
    } else if str_eq(method, "session/prompt") {
        let session_id = match params.get_str("sessionId") {
            Some(s) => owned(s),
            None => owned("helix-codex-session"),
        };
        let prompt = prompt_text(params);
        let context = match helix_context(params.get("_meta")) {
            Some(c) => Some(c.deep_copy()),
            None => None,
        };
        AdapterRequest::Prompt { id, session_id, prompt, context }
    } else {
        AdapterRequest::Unknown { id, method: owned(method) }
    }
}

/// Law: a prompt is answered for the session it names: when the
/// parameters of a `session/prompt` request carry a string `sessionId`, the
/// routed session id is exactly that string, and `helix-codex-session` is
/// used only when they carry none; likewise the protocol version of
/// `initialize` is the one the client gives when it gives one.
pub proof fn law_routing_keeps_what_the_client_sent(message: JsonValue, r: AdapterRequest)
    requires
        routed(message, r),
    ensures
        message.str_field("method"@) == Some("session/prompt"@) && message.field("id"@) is Some
            ==> match message.field("params"@) {
            Some(p) => match p.str_field("sessionId"@) {
                Some(s) => r matches AdapterRequest::Prompt { session_id, .. } && session_id@ == s,
                None => r matches AdapterRequest::Prompt { session_id, .. } && session_id@
                    == "helix-codex-session"@,
            },
            None => r matches AdapterRequest::Prompt { session_id, .. } && session_id@
                == "helix-codex-session"@,
        },
        message.str_field("method"@) == Some("initialize"@) && message.field("id"@) is Some
            ==> match message.field("params"@) {
            Some(p) => match p.field("protocolVersion"@) {
                Some(v) => match v.u64_value() {
                    Some(n) => r matches AdapterRequest::Initialize { protocol_version, .. }
                        && protocol_version == n,
                    None => r matches AdapterRequest::Initialize { protocol_version, .. }
                        && protocol_version == ADAPTER_PROTOCOL_VERSION,
                },
                None => r matches AdapterRequest::Initialize { protocol_version, .. }
                    && protocol_version == ADAPTER_PROTOCOL_VERSION,
            },
            None => r matches AdapterRequest::Initialize { protocol_version, .. }
                && protocol_version == ADAPTER_PROTOCOL_VERSION,
        },
{
    reveal_strlit("session/prompt");
    reveal_strlit("initialize");
    reveal_strlit("session/new");
    assert("session/prompt"@.len() != "initialize"@.len());
    assert("session/prompt"@.len() != "session/new"@.len());
}

/// Law: the prompt given to `codex exec` ends with the user's prompt, and
/// with editor context it holds that context, after the read-only
/// instructions; without context it is the user's prompt alone.
pub proof fn law_codex_prompt_keeps_prompt_and_context(
    prompt: Seq<char>,
    context_json: Option<Seq<char>>,
)
    ensures
        ({
            let r = codex_prompt_text(prompt, context_json);
            &&& r.len() >= prompt.len()
            &&& r.subrange(r.len() - prompt.len(), r.len() as int) == prompt
            &&& context_json is None ==> r == prompt
            &&& context_json matches Some(c) ==> contains_seq(r, c)
        }),
{
    let r = codex_prompt_text(prompt, context_json);
    assert(r.subrange(r.len() - prompt.len(), r.len() as int) =~= prompt);
    if let Some(c) = context_json {
        let head = "You are being invoked from Helix through ACP.\n\nFor this adapter MVP, do not modify files or run write operations. If code changes are needed, describe the change or provide a patch/diff in your final answer for Helix to review later.\n\nHelix editor context JSON:\n```json\n"@;
        assert(r.subrange(head.len() as int, (head.len() + c.len()) as int) =~= c);
        assert(occurs_at(r, c, head.len() as int));
    }
}

} // verus!
