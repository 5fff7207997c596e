use doomhelix_agent::acp::{
    JsonRpcError, JsonRpcInboundNotification, JsonRpcInboundRequest, JsonRpcMessage,
    JsonRpcResponse,
};
use doomhelix_agent::json::{Json, JsonNumber};
use doomhelix_agent::permission::{
    agent_request_action, answer_agent_request, is_affirmative, permission_body,
    permission_kind, permission_option_summary, permission_title, render_body_sections,
    yes_no_prompt, AgentRequestAction, BodyValue, PermissionBody,
};
use doomhelix_agent::runtime::RunningAgentState;
use doomhelix_agent::summary::{
    notification_tool_kind, notification_tool_status, notification_update_kind,
    response_result_summary,
};
use doomhelix_agent::turn::{
    detached_prompt_request, json_rpc_id_eq, read_failure_message, session_new_failure_message,
    update_session_id, PromptTurn, SendPromptError, TurnOutcome, TurnPhase,
};

fn from_value(v: &serde_json::Value) -> Json {
    match v {
        serde_json::Value::Null => Json::Null,
        serde_json::Value::Bool(b) => Json::Bool(*b),
        serde_json::Value::Number(n) => {
            if let Some(u) = n.as_u64() {
                Json::Number(JsonNumber::PosInt(u))
            } else if let Some(i) = n.as_i64() {
                Json::Number(JsonNumber::NegInt(i))
            } else {
                Json::Number(JsonNumber::Float(n.to_string()))
            }
        }
        serde_json::Value::String(s) => Json::String(s.clone()),
        serde_json::Value::Array(items) => Json::Array(items.iter().map(from_value).collect()),
        serde_json::Value::Object(map) => Json::Object(
            map.iter()
                .map(|(k, v)| (k.clone(), from_value(v)))
                .collect(),
        ),
    }
}

fn to_value(j: &Json) -> serde_json::Value {
    match j {
        Json::Null => serde_json::Value::Null,
        Json::Bool(b) => serde_json::Value::Bool(*b),
        Json::Number(JsonNumber::PosInt(u)) => serde_json::Value::from(*u),
        Json::Number(JsonNumber::NegInt(i)) => serde_json::Value::from(*i),
        Json::Number(JsonNumber::Float(f)) => serde_json::from_str(f).unwrap(),
        Json::String(s) => serde_json::Value::String(s.clone()),
        Json::Array(items) => serde_json::Value::Array(items.iter().map(to_value).collect()),
        Json::Object(entries) => {
            let mut map = serde_json::Map::new();
            for (k, v) in entries {
                map.entry(k.clone()).or_insert_with(|| to_value(v));
            }
            serde_json::Value::Object(map)
        }
    }
}

fn value(text: &str) -> serde_json::Value {
    serde_json::from_str(text).unwrap()
}

fn json(text: &str) -> Json {
    let value: serde_json::Value = serde_json::from_str(text).unwrap();
    from_value(&value)
}


fn request(id: u64, method: &str, params: Option<&str>) -> JsonRpcInboundRequest {
    JsonRpcInboundRequest {
        jsonrpc: Some("2.0".to_string()),
        id: Json::Number(JsonNumber::PosInt(id)),
        method: method.to_string(),
        params: params.map(json),
    }
}

fn response(id: u64, result: Option<&str>) -> JsonRpcMessage {
    JsonRpcMessage::Response(JsonRpcResponse {
        jsonrpc: Some("2.0".to_string()),
        id: Json::Number(JsonNumber::PosInt(id)),
        result: result.map(json),
        error: None,
    })
}

fn notification(params: &str) -> JsonRpcMessage {
    JsonRpcMessage::Notification(JsonRpcInboundNotification {
        jsonrpc: Some("2.0".to_string()),
        method: "session/update".to_string(),
        params: Some(json(params)),
    })
}

#[test]
fn permission_request_asks_and_answers_with_the_chosen_option() {
    let params = r#"{"toolCall":{"title":"Run ls","kind":"execute"},"options":[{"optionId":"ok","kind":"allow_once"},{"optionId":"no","kind":"reject_once"}]}"#;
    let action = agent_request_action(request(5, "session/request_permission", Some(params)));
    match &action {
        AgentRequestAction::Permission { title, allow_option, reject_option, .. } => {
            assert_eq!(title, "Run ls");
            assert_eq!(allow_option, "ok");
            assert_eq!(reject_option, "no");
        }
        other => panic!("unexpected {other:?}"),
    }
    let yes = answer_agent_request(action, true);
    assert_eq!(
        to_value(&yes),
        value(r#"{"jsonrpc":"2.0","id":5,"result":{"outcome":{"outcome":"selected","optionId":"ok"}}}"#)
    );
    let action = agent_request_action(request(6, "session/request_permission", Some(params)));
    let no = answer_agent_request(action, false);
    assert_eq!(to_value(&no)["result"]["outcome"]["optionId"], "no");
}

#[test]
fn permission_title_falls_back() {
    let action = agent_request_action(request(1, "session/request_permission", None));
    match action {
        AgentRequestAction::Permission { title, allow_option, reject_option, .. } => {
            assert_eq!(title, "Approve agent tool call?");
            assert_eq!(allow_option, "allow");
            assert_eq!(reject_option, "deny");
        }
        other => panic!("unexpected {other:?}"),
    }
    let action = agent_request_action(request(
        1,
        "session/request_permission",
        Some(r#"{"toolCall":{},"tool_call":{"title":"Snake"}}"#),
    ));
    match action {
        AgentRequestAction::Permission { title, .. } => assert_eq!(title, "Snake"),
        other => panic!("unexpected {other:?}"),
    }
}

#[test]
fn legacy_approval_answers_accept_or_decline() {
    let action = agent_request_action(request(
        3,
        "agent/approval",
        Some(r#"{"title":"Apply patch?","body":"diff"}"#),
    ));
    match &action {
        AgentRequestAction::Approval { title, body, .. } => {
            assert_eq!(title, "Apply patch?");
            assert_eq!(body, "diff");
        }
        other => panic!("unexpected {other:?}"),
    }
    assert_eq!(
        to_value(&answer_agent_request(action, false)),
        value(r#"{"jsonrpc":"2.0","id":3,"result":{"decision":"decline"}}"#)
    );
    let action = agent_request_action(request(4, "agent/approval", None));
    match &action {
        AgentRequestAction::Approval { title, body, .. } => {
            assert_eq!(title, "Approve agent action?");
            assert_eq!(body, "");
        }
        other => panic!("unexpected {other:?}"),
    }
    assert_eq!(to_value(&answer_agent_request(action, true))["result"]["decision"], "accept");
}

#[test]
fn unsupported_request_is_refused() {
    let action = agent_request_action(request(9, "fs/write_text_file", None));
    let reply = answer_agent_request(action, true);
    assert_eq!(
        to_value(&reply),
        value(r#"{"jsonrpc":"2.0","id":9,"error":{"code":-32601,"message":"unsupported agent request: fs/write_text_file"}}"#)
    );
}

#[test]
fn permission_log_helpers() {
    let params = json(
        r#"{"tool_call":{"title":"T","kind":"edit"},"options":[{"optionId":"a","kind":"allow_once"},{"option_id":"b"},{"name":"no id"}]}"#,
    );
    assert_eq!(permission_title(Some(&params)), Some("T"));
    assert_eq!(permission_kind(Some(&params)), Some("edit"));
    assert_eq!(permission_option_summary(Some(&params)), "a:allow_once, b:unknown");
    assert_eq!(permission_option_summary(None), "[]");
    assert_eq!(permission_title(None), None);
}

#[test]
fn permission_body_sections() {
    let params = json(
        r#"{"toolCall":{"kind":"execute","content":[{"type":"text"}],"raw_input":{"cmd":"ls"}}}"#,
    );
    match permission_body(&params) {
        PermissionBody::Sections(sections) => {
            assert_eq!(sections.len(), 3);
            assert_eq!(sections[0].0, "Kind");
            assert!(matches!(&sections[0].1, BodyValue::Text(k) if k == "execute"));
            assert_eq!(sections[1].0, "Details");
            assert!(matches!(&sections[1].1, BodyValue::Pretty(_)));
            assert_eq!(sections[2].0, "Input");
            match &sections[2].1 {
                BodyValue::Pretty(j) => assert_eq!(to_value(j), value(r#"{"cmd":"ls"}"#)),
                other => panic!("unexpected {other:?}"),
            }
        }
        other => panic!("unexpected {other:?}"),
    }
    match permission_body(&json(r#"{"toolCall":{"title":"x"}}"#)) {
        PermissionBody::Whole(j) => assert_eq!(to_value(&j), value(r#"{"title":"x"}"#)),
        other => panic!("unexpected {other:?}"),
    }
    match permission_body(&json(r#"{"a":1}"#)) {
        PermissionBody::Whole(j) => assert_eq!(to_value(&j), value(r#"{"a":1}"#)),
        other => panic!("unexpected {other:?}"),
    }
    let text = render_body_sections(&vec![
        ("Kind".to_string(), "edit".to_string()),
        ("Input".to_string(), "{}".to_string()),
    ]);
    assert_eq!(text, "Kind:\nedit\n\nInput:\n{}");
}

#[test]
fn yes_no_answers() {
    assert_eq!(yes_no_prompt("Allow?"), "Allow? [y/N] ");
    assert!(is_affirmative(" Y "));
    assert!(is_affirmative("yes"));
    assert!(is_affirmative("YeS\n"));
    assert!(!is_affirmative("no"));
    assert!(!is_affirmative(""));
    assert!(!is_affirmative("yess"));
}

#[test]
fn response_summaries() {
    assert_eq!(response_result_summary(&json("{}")), "ok");
    assert_eq!(
        response_result_summary(&json(
            r#"{"sessionId":"s1","configOptions":[{"id":"x"},{"category":"mode"},{"id":"mode","currentValue":"auto"}],"modes":{"currentModeId":"code"}}"#
        )),
        "sessionId=s1, configMode=auto, mode=code"
    );
    assert_eq!(
        response_result_summary(&json(r#"{"modes":{"currentModeId":"ask"}}"#)),
        "mode=ask"
    );
}

#[test]
fn notification_kinds() {
    let params = json(r#"{"update":{"sessionUpdate":"tool_call","toolCall":{"kind":"edit","status":"pending"}}}"#);
    assert_eq!(notification_update_kind(Some(&params)), Some("tool_call"));
    assert_eq!(notification_tool_kind(Some(&params)), Some("edit"));
    assert_eq!(notification_tool_status(Some(&params)), Some("pending"));
    assert_eq!(notification_update_kind(None), None);
    assert_eq!(notification_tool_kind(Some(&json(r#"{"update":{}}"#))), None);
}

#[test]
fn ids_match_numbers_and_numeric_strings() {
    assert!(json_rpc_id_eq(&Json::Number(JsonNumber::PosInt(2)), 2));
    assert!(json_rpc_id_eq(&Json::String("2".to_string()), 2));
    assert!(!json_rpc_id_eq(&Json::String("two".to_string()), 2));
    assert!(!json_rpc_id_eq(&Json::Number(JsonNumber::PosInt(3)), 2));
    assert!(!json_rpc_id_eq(&Json::Null, 2));
}

#[test]
fn session_new_answers() {
    let mut agent = RunningAgentState::started("codex".to_string());
    assert_eq!(agent.next_request_id, 3);
    let ok = response(2, Some(r#"{"sessionId":"abc"}"#));
    assert_eq!(session_new_failure_message(&ok), None);
    update_session_id(&mut agent, &ok);
    assert_eq!(agent.session_id.as_deref(), Some("abc"));
    let missing = response(2, Some("{}"));
    assert_eq!(
        session_new_failure_message(&missing).as_deref(),
        Some("agent session/new response did not include a sessionId")
    );
    let failed = JsonRpcMessage::Response(JsonRpcResponse {
        jsonrpc: None,
        id: Json::Number(JsonNumber::PosInt(2)),
        result: None,
        error: Some(JsonRpcError { code: -1, message: "nope".to_string(), data: None }),
    });
    assert_eq!(
        session_new_failure_message(&failed).as_deref(),
        Some("agent session/new failed: nope")
    );
    assert_eq!(session_new_failure_message(&response(7, None)), None);
}

#[test]
fn prompt_turn_with_known_session_sends_prompt_and_finishes_on_its_answer() {
    let agent = RunningAgentState {
        name: "codex".to_string(),
        session_id: Some("s".to_string()),
        next_request_id: 3,
    };
    let (mut turn, outcome) = PromptTurn::begin(agent, "hi".to_string(), None);
    match outcome {
        TurnOutcome::SendPrompt(req) => {
            assert_eq!(req.id, 3);
            assert_eq!(req.method, "session/prompt");
            assert_eq!(req.params.get_str("sessionId"), Some("s"));
        }
        other => panic!("unexpected {other:?}"),
    }
    assert_eq!(turn.phase, TurnPhase::Prompt { request_id: 3 });
    let step = turn.receive(notification(r#"{"update":{"sessionUpdate":"agent_message_chunk"}}"#));
    assert!(step.deliver);
    assert!(matches!(step.outcome, TurnOutcome::Receive));
    let step = turn.receive(JsonRpcMessage::Request(request(40, "agent/approval", None)));
    assert!(!step.deliver);
    assert!(matches!(step.outcome, TurnOutcome::Answer(AgentRequestAction::Approval { .. })));
    let step = turn.receive(response(99, None));
    assert!(matches!(step.outcome, TurnOutcome::Receive));
    let step = turn.receive(response(3, Some(r#"{"stopReason":"end_turn"}"#)));
    assert!(step.deliver);
    match step.outcome {
        TurnOutcome::Finished(t) => {
            assert_eq!(t.request_id, 3);
            assert_eq!(t.prompt, "hi");
            assert_eq!(t.messages.len(), 3);
        }
        other => panic!("unexpected {other:?}"),
    }
    assert_eq!(turn.phase, TurnPhase::Finished);
    assert_eq!(turn.agent.next_request_id, 4);
}

#[test]
fn prompt_turn_waits_for_session_and_sets_read_only_mode_first() {
    let agent = RunningAgentState::started("codex".to_string());
    let (mut turn, outcome) = PromptTurn::begin(agent, "hi".to_string(), None);
    assert!(matches!(outcome, TurnOutcome::Receive));
    assert_eq!(turn.phase, TurnPhase::Startup);
    let step = turn.receive(response(1, Some("{}")));
    assert!(matches!(step.outcome, TurnOutcome::Receive));
    let step = turn.receive(response(
        2,
        Some(r#"{"sessionId":"s9","modes":{"currentModeId":"code","availableModes":[{"id":"ask"},{"id":"code"}]}}"#),
    ));
    match step.outcome {
        TurnOutcome::SendModeRequest(req) => {
            assert_eq!(req.id, 3);
            assert_eq!(req.method, "session/set_mode");
            assert_eq!(to_value(&req.params), value(r#"{"sessionId":"s9","modeId":"ask"}"#));
        }
        other => panic!("unexpected {other:?}"),
    }
    assert_eq!(turn.phase, TurnPhase::ApprovalMode { mode_request_id: 3 });
    let step = turn.receive(response(3, Some("{}")));
    match step.outcome {
        TurnOutcome::SendPrompt(req) => assert_eq!(req.id, 4),
        other => panic!("unexpected {other:?}"),
    }
    let step = turn.receive(response(4, Some("{}")));
    match step.outcome {
        TurnOutcome::Finished(t) => {
            assert_eq!(t.request_id, 4);
            assert_eq!(t.messages.len(), 4);
        }
        other => panic!("unexpected {other:?}"),
    }
}

#[test]
fn prompt_turn_fails_when_session_new_fails() {
    let agent = RunningAgentState::started("codex".to_string());
    let (mut turn, _) = PromptTurn::begin(agent, "hi".to_string(), None);
    let step = turn.receive(response(2, Some("{}")));
    match step.outcome {
        TurnOutcome::Fail(m) => assert_eq!(m, "agent session/new response did not include a sessionId"),
        other => panic!("unexpected {other:?}"),
    }
    assert_eq!(turn.phase, TurnPhase::Finished);
}

#[test]
fn detached_prompts() {
    let mut slot: Option<RunningAgentState> = None;
    assert_eq!(
        detached_prompt_request(&mut slot, "p".to_string(), None).unwrap_err(),
        SendPromptError::NoAgent
    );
    assert_eq!(SendPromptError::NoAgent.message(), "no agent is running");
    slot = Some(RunningAgentState::started("codex".to_string()));
    let err = detached_prompt_request(&mut slot, "p".to_string(), None).unwrap_err();
    assert_eq!(err, SendPromptError::NoSession);
    assert!(err.message().starts_with("agent session id is not known yet"));
    assert_eq!(slot.as_ref().unwrap().next_request_id, 3);
    let mut exhausted = Some(RunningAgentState {
        name: "codex".to_string(),
        session_id: None,
        next_request_id: u64::MAX,
    });
    assert_eq!(
        detached_prompt_request(&mut exhausted, "p".to_string(), None).unwrap_err(),
        SendPromptError::NoSession
    );
    slot.as_mut().unwrap().session_id = Some("s".to_string());
    let req = detached_prompt_request(&mut slot, "p".to_string(), None).unwrap();
    assert_eq!(req.id, 3);
    assert_eq!(slot.as_ref().unwrap().next_request_id, 4);
}

#[test]
fn read_failures() {
    assert_eq!(
        read_failure_message("eof", Some("exit status: 1"), Some("boom")),
        "failed to read agent message: eof; process exited with exit status: 1; stderr: boom"
    );
    assert_eq!(read_failure_message("eof", None, None), "failed to read agent message: eof");
}
