use doomhelix_agent::acp::prompt_request;
use doomhelix_agent::adapter::{
    agent_message_chunk, codex_exec_args, codex_exec_reply, codex_prompt, end_turn_response,
    helix_context, initialize_response, method_not_found, new_session_id, new_session_id_at,
    prompt_text, route, start_session, AdapterRequest, AdapterState,
};
use doomhelix_agent::json::{Json, JsonNumber};
use doomhelix_agent::modes::{preferred_config_mode, preferred_session_mode};
use doomhelix_agent::permission::acp_permission_choices;

fn from_value(v: &serde_json::Value) -> Json {
    match v {
        serde_json::Value::Null => Json::Null,
        serde_json::Value::Bool(b) => Json::Bool(*b),
        serde_json::Value::Number(n) => {
            if let Some(u) = n.as_u64() {
                Json::Number(JsonNumber::PosInt(u))
            } else if let Some(i) = n.as_i64() {
                Json::Number(JsonNumber::NegInt(i))
            } else {
                Json::Number(JsonNumber::Float(n.to_string()))
            }
        }
        serde_json::Value::String(s) => Json::String(s.clone()),
        serde_json::Value::Array(items) => Json::Array(items.iter().map(from_value).collect()),
        serde_json::Value::Object(map) => Json::Object(
            map.iter()
                .map(|(k, v)| (k.clone(), from_value(v)))
                .collect(),
        ),
    }
}

fn to_value(j: &Json) -> serde_json::Value {
    match j {
        Json::Null => serde_json::Value::Null,
        Json::Bool(b) => serde_json::Value::Bool(*b),
        Json::Number(JsonNumber::PosInt(u)) => serde_json::Value::from(*u),
        Json::Number(JsonNumber::NegInt(i)) => serde_json::Value::from(*i),
        Json::Number(JsonNumber::Float(f)) => serde_json::from_str(f).unwrap(),
        Json::String(s) => serde_json::Value::String(s.clone()),
        Json::Array(items) => serde_json::Value::Array(items.iter().map(to_value).collect()),
        Json::Object(entries) => {
            let mut map = serde_json::Map::new();
            for (k, v) in entries {
                map.entry(k.clone()).or_insert_with(|| to_value(v));
            }
            serde_json::Value::Object(map)
        }
    }
}

fn value(text: &str) -> serde_json::Value {
    serde_json::from_str(text).unwrap()
}

fn json(text: &str) -> Json {
    let value: serde_json::Value = serde_json::from_str(text).unwrap();
    from_value(&value)
}

#[test]
fn prompt_request_includes_meta_when_present() {
    let request = prompt_request(
        7,
        "session-1".to_string(),
        "explain this file".to_string(),
        Some(json(
            r#"{
                "helix": {
                    "context": {
                        "theme": "base16_default"
                    }
                }
            }"#,
        )),
    );

    assert_eq!(request.method, "session/prompt");
    assert_eq!(request.params.get_str("sessionId"), Some("session-1"));
    let prompt = request.params.get_array("prompt").unwrap();
    assert_eq!(prompt[0].get_str("text"), Some("explain this file"));
    assert_eq!(
        request
            .params
            .get("_meta")
            .and_then(|m| m.get("helix"))
            .and_then(|h| h.get("context"))
            .and_then(|c| c.get_str("theme")),
        Some("base16_default")
    );
}

#[test]
fn prompt_request_omits_meta_when_absent() {
    let request = prompt_request(8, "s".to_string(), "hi".to_string(), None);
    assert_eq!(request.id, 8);
    assert_eq!(request.jsonrpc, "2.0");
    assert!(request.params.get("_meta").is_none());
    assert_eq!(
        to_value(&request.params),
        value(r#"{"sessionId":"s","prompt":[{"type":"text","text":"hi"}]}"#)
    );
}

#[test]
fn falls_back_to_suggest_config_mode() {
    let result = json(
        r#"{
            "configOptions": [
                {
                    "id": "mode",
                    "category": "mode",
                    "currentValue": "full-auto",
                    "options": [
                        { "value": "suggest" },
                        { "value": "auto-edit" },
                        { "value": "full-auto" }
                    ]
                }
            ]
        }"#,
    );

    assert_eq!(
        preferred_config_mode(&result),
        Some(("mode".to_string(), "suggest".to_string()))
    );
}

#[test]
fn prefers_read_only_codex_config_mode() {
    let result = json(
        r#"{
            "configOptions": [
                {
                    "id": "mode",
                    "category": "mode",
                    "currentValue": "auto",
                    "options": [
                        { "value": "read-only" },
                        { "value": "auto" },
                        { "value": "full-access" }
                    ]
                }
            ]
        }"#,
    );

    assert_eq!(
        preferred_config_mode(&result),
        Some(("mode".to_string(), "read-only".to_string()))
    );
}

#[test]
fn falls_back_to_ask_session_mode() {
    let result = json(
        r#"{
            "modes": {
                "currentModeId": "code",
                "availableModes": [
                    { "id": "ask" },
                    { "id": "code" }
                ]
            }
        }"#,
    );

    assert_eq!(preferred_session_mode(&result), Some("ask".to_string()));
}

#[test]
fn current_read_only_mode_is_not_requested_again() {
    let result = json(
        r#"{
            "modes": {
                "currentModeId": "read-only",
                "availableModes": [{ "id": "read-only" }, { "id": "code" }]
            }
        }"#,
    );
    assert_eq!(preferred_session_mode(&result), None);
    assert_eq!(preferred_config_mode(&json("{}")), None);
}

#[test]
fn maps_acp_permission_options_to_allow_and_deny_choices() {
    let params = json(
        r#"{
            "sessionId": "session-1",
            "toolCall": {
                "toolCallId": "call-1",
                "title": "Edit src/main.rs",
                "kind": "edit",
                "status": "pending"
            },
            "options": [
                {
                    "optionId": "approved",
                    "name": "Yes, proceed",
                    "kind": "allow_once"
                },
                {
                    "optionId": "approved-for-session",
                    "name": "Yes, and don't ask again",
                    "kind": "allow_always"
                },
                {
                    "optionId": "denied",
                    "name": "No, continue without running",
                    "kind": "reject_once"
                }
            ]
        }"#,
    );

    assert_eq!(
        acp_permission_choices(&params),
        ("approved".to_string(), "denied".to_string())
    );
}

#[test]
fn acp_permission_options_have_stable_fallbacks() {
    assert_eq!(
        acp_permission_choices(&json("{}")),
        ("allow".to_string(), "deny".to_string())
    );
}

#[test]
fn allow_falls_back_to_first_option_and_names_count() {
    let params = json(
        r#"{
            "options": [
                { "option_id": "first", "name": "Go", "kind": "other" },
                { "optionId": "nope", "name": "Deny it", "kind": "other" }
            ]
        }"#,
    );
    assert_eq!(
        acp_permission_choices(&params),
        ("first".to_string(), "nope".to_string())
    );
}

#[test]
fn extracts_text_prompt_blocks() {
    let params = json(
        r#"{
            "prompt": [
                { "type": "text", "text": "one" },
                { "type": "text", "text": "two" }
            ]
        }"#,
    );

    assert_eq!(prompt_text(&params), "one\ntwo");
}

#[test]
fn blank_prompt_text_is_empty() {
    assert_eq!(prompt_text(&json(r#"{"prompt":[{"text":"  "},{"type":"image"}]}"#)), "");
    assert_eq!(prompt_text(&json(r#"{"prompt":"x"}"#)), "");
}

#[test]
fn formats_codex_prompt_with_helix_context() {
    let meta = json(
        r#"{
            "helix": {
                "context": {
                    "theme": "amberwood",
                    "mode": "normal"
                }
            }
        }"#,
    );

    let context = helix_context(Some(&meta)).map(|c| serde_json::to_string_pretty(&to_value(c)).unwrap());
    let prompt = codex_prompt("what is open?", context.as_deref());
    assert!(prompt.contains("Helix editor context JSON"));
    assert!(prompt.contains("\"theme\": \"amberwood\""));
    assert!(prompt.contains("what is open?"));
}

#[test]
fn codex_prompt_without_context_is_the_prompt() {
    let meta = json(r#"{"helix":{}}"#);
    assert!(helix_context(Some(&meta)).is_none());
    assert!(helix_context(None).is_none());
    assert_eq!(codex_prompt("hello", None), "hello");
}

#[test]
fn codex_exec_command_line() {
    assert_eq!(
        codex_exec_args(Some("/repo")),
        vec![
            "exec",
            "--color",
            "never",
            "--skip-git-repo-check",
            "--sandbox",
            "read-only",
            "--cd",
            "/repo",
            "-"
        ]
    );
    assert_eq!(codex_exec_args(None).last().map(String::as_str), Some("-"));
    assert_eq!(codex_exec_args(None).len(), 7);
}

#[test]
fn codex_exec_replies() {
    assert_eq!(codex_exec_reply(true, "  done \n", "", "exit status: 0"), "done");
    assert_eq!(
        codex_exec_reply(true, " \n", "", "exit status: 0"),
        "(codex exec completed without output)"
    );
    assert_eq!(
        codex_exec_reply(false, "", "", "exit status: 2"),
        "codex exec exited with exit status: 2"
    );
    assert_eq!(
        codex_exec_reply(false, "", " boom\n", "exit status: 2"),
        "codex exec exited with exit status: 2:\nboom"
    );
}

#[test]
fn adapter_session_ids() {
    assert_eq!(new_session_id_at(1234), "helix-codex-1234");
    assert!(new_session_id().starts_with("helix-codex-"));
}

#[test]
fn adapter_routes_requests() {
    match route(&json(r#"{"jsonrpc":"2.0","id":1,"method":"initialize","params":{"protocolVersion":3}}"#)) {
        AdapterRequest::Initialize { id, protocol_version } => {
            assert_eq!(id, Json::Number(JsonNumber::PosInt(1)));
            assert_eq!(protocol_version, 3);
        }
        other => panic!("unexpected {other:?}"),
    }
    match route(&json(r#"{"id":"a","method":"initialize"}"#)) {
        AdapterRequest::Initialize { protocol_version, .. } => assert_eq!(protocol_version, 1),
        other => panic!("unexpected {other:?}"),
    }
    match route(&json(r#"{"id":2,"method":"session/new","params":{"cwd":"/w"}}"#)) {
        AdapterRequest::NewSession { cwd, .. } => assert_eq!(cwd.as_deref(), Some("/w")),
        other => panic!("unexpected {other:?}"),
    }
    match route(&json(
        r#"{"id":3,"method":"session/prompt","params":{"prompt":[{"text":"hi"}],"_meta":{"helix":{"context":{"a":1}}}}}"#,
    )) {
        AdapterRequest::Prompt { session_id, prompt, context, .. } => {
            assert_eq!(session_id, "helix-codex-session");
            assert_eq!(prompt, "hi");
            assert_eq!(to_value(&context.unwrap()), value(r#"{"a":1}"#));
        }
        other => panic!("unexpected {other:?}"),
    }
    match route(&json(r#"{"id":4,"method":"fs/read"}"#)) {
        AdapterRequest::Unknown { method, .. } => assert_eq!(method, "fs/read"),
        other => panic!("unexpected {other:?}"),
    }
    assert!(matches!(route(&json(r#"{"method":"session/cancel"}"#)), AdapterRequest::Ignore));
    assert!(matches!(route(&json(r#"{"id":5}"#)), AdapterRequest::Ignore));
}

#[test]
fn adapter_responses() {
    let init = initialize_response(Json::Number(JsonNumber::PosInt(1)), 1, "0.1.0");
    let v = to_value(&init);
    assert_eq!(v["result"]["protocolVersion"], 1);
    assert_eq!(v["result"]["agentInfo"]["name"], "helix-codex-agent");
    assert_eq!(v["result"]["agentInfo"]["version"], "0.1.0");
    assert_eq!(v["result"]["agentCapabilities"]["promptCapabilities"]["embeddedContext"], true);
    assert_eq!(
        to_value(&method_not_found(Json::String("x".to_string()), "foo")),
        value(r#"{"jsonrpc":"2.0","id":"x","error":{"code":-32601,"message":"method not found: foo"}}"#)
    );
    assert_eq!(
        to_value(&agent_message_chunk("s1", "out".to_string())),
        value(
            r#"{"jsonrpc":"2.0","method":"session/update","params":{"sessionId":"s1","update":{"sessionUpdate":"agent_message_chunk","content":{"type":"text","text":"out"}}}}"#
        )
    );
    assert_eq!(
        to_value(&end_turn_response(Json::Number(JsonNumber::PosInt(9)))),
        value(r#"{"jsonrpc":"2.0","id":9,"result":{"stopReason":"end_turn"}}"#)
    );
}

#[test]
fn adapter_starts_sessions() {
    let mut state = AdapterState { session_id: None, cwd: None };
    let reply = start_session(
        &mut state,
        Json::Number(JsonNumber::PosInt(2)),
        None,
        Some("/fallback".to_string()),
        "helix-codex-5".to_string(),
    );
    assert_eq!(state.cwd.as_deref(), Some("/fallback"));
    assert_eq!(state.session_id.as_deref(), Some("helix-codex-5"));
    let v = to_value(&reply);
    assert_eq!(v["result"]["sessionId"], "helix-codex-5");
    assert_eq!(v["result"]["_meta"]["helixCodexAgent"]["backend"], "codex exec");
    start_session(&mut state, Json::Null, Some("/given".to_string()), None, "b".to_string());
    assert_eq!(state.cwd.as_deref(), Some("/given"));
}
