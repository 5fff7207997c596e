//! One prompt turn with a running agent, as a state machine.
//!
//! The editor feeds every message that the agent sends to [`PromptTurn::receive`]
//! and performs what the returned step asks: send a request, answer a request
//! of the agent after asking the user, fail, or finish with the collected
//! messages. The turn first waits for the session id (the answer to
//! `session/new`, request 2), then switches the session to a read-only
//! approval mode when the agent offers one, then sends the prompt and
//! collects messages until the answer to the prompt arrives.
use vstd::prelude::*;
use crate::acp::{
    JsonRpcInboundRequest, JsonRpcMessage, JsonRpcRequest, opt_json_view, prompt_params_value,
    prompt_request,
};
use crate::json::{Json, JsonValue, NumberValue};
use crate::modes::{approval_mode_choice, approval_mode_request};
use crate::permission::{AgentRequestAction, action_for, agent_request_action};
use crate::runtime::{RunningAgentState, copy_opt_string, opt_str_view};
use crate::text::{
    chars_of, decimal, law_decimal_reads_back, owned, parse_unsigned, parse_unsigned_chars,
};

verus! {

/// A JSON-RPC id equals `expected`: the number itself, or a string holding it.
pub open spec fn id_matches(id: JsonValue, expected: u64) -> bool {
    id.u64_value() == Some(expected) || match id.str_value() {
        Some(s) => parse_unsigned(s, u64::MAX as nat) == Some(expected as nat),
        None => false,
    }
}

/// Compares a JSON-RPC id with a request id.
pub fn json_rpc_id_eq(id: &Json, expected: u64) -> (r: bool)
    ensures
        r == id_matches(id@, expected),
{
    if id.as_u64() == Some(expected) {
        return true;
    }
    match id.as_str() {
        Some(s) => {
            let cs = chars_of(s);
            parse_unsigned_chars(cs.as_slice(), u64::MAX) == Some(expected)
        },
        None => false,
    }
}

/// The message answers request `n`.
pub open spec fn answers(m: JsonRpcMessage, n: u64) -> bool {
    m matches JsonRpcMessage::Response(r) && id_matches(r.id@, n)
}

/// Whether the message answers request `n`.
pub fn message_answers(m: &JsonRpcMessage, n: u64) -> (r: bool)
    ensures
        r == answers(*m, n),
{
    match m {
        JsonRpcMessage::Response(r) => json_rpc_id_eq(&r.id, n),
        _ => false,
    }
}

/// The `result` of a response.
pub open spec fn result_of(m: JsonRpcMessage) -> Option<JsonValue> {
    match m {
        JsonRpcMessage::Response(r) => opt_json_view(r.result),
        _ => None,
    }
}

/// The session id that the answer to `session/new` carries, if the message is one.
pub open spec fn new_session_id_in(m: JsonRpcMessage) -> Option<Seq<char>> {
    if answers(m, 2) {
        match result_of(m) {
            Some(v) => v.str_field("sessionId"@),
            None => None,
        }
    } else {
        None
    }
}

/// The failure that an answer to `session/new` without a session id reports.
pub open spec fn session_failure(m: JsonRpcMessage) -> Option<Seq<char>> {
    match m {
        JsonRpcMessage::Response(r) => if answers(m, 2) && new_session_id_in(m) is None {
            Some(
                match r.error {
                    Some(e) => "agent session/new failed: "@ + e.message@,
                    None => "agent session/new response did not include a sessionId"@,
                },
            )
        } else {
            None
        },
        _ => None,
    }
}

fn new_session_id<'a>(m: &'a JsonRpcMessage) -> (r: Option<&'a str>)
    ensures
        match r {
            Some(s) => new_session_id_in(*m) == Some(s@),
            None => new_session_id_in(*m) is None,
        },
{
    match m {
        JsonRpcMessage::Response(r) => {
            if !json_rpc_id_eq(&r.id, 2) {
                return None;
            }
            match &r.result {
                Some(v) => v.get_str("sessionId"),
                None => None,
            }
        },
        _ => None,
    }
}

/// Records the session id when the message is the answer to `session/new`.
pub fn update_session_id(agent: &mut RunningAgentState, message: &JsonRpcMessage)
    ensures
        final(agent).name == old(agent).name,
        final(agent).next_request_id == old(agent).next_request_id,
        opt_str_view(final(agent).session_id) == match new_session_id_in(*message) {
            Some(s) => Some(s),
            None => opt_str_view(old(agent).session_id),
        },
{
    if let Some(s) = new_session_id(message) {
        agent.session_id = Some(owned(s));
    }
}

/// The failure to report when the answer to `session/new` has no session id.
pub fn session_new_failure_message(message: &JsonRpcMessage) -> (r: Option<String>)
    ensures
        opt_str_view(r) == session_failure(*message),
{
    match message {
        JsonRpcMessage::Response(response) => {
            if !json_rpc_id_eq(&response.id, 2) {
                return None;
            }
            if new_session_id(message).is_some() {
                return None;
            }
            match &response.error {
                Some(error) => {
                    let mut m = owned("agent session/new failed: ");
                    m.append(error.message.as_str());
                    Some(m)
                },
                None => Some(owned("agent session/new response did not include a sessionId")),
            }
        },
        _ => None,
    }
}

/// Why a prompt cannot be sent on its own.
#[derive(Debug, PartialEq, Eq)]
pub enum SendPromptError {
    /// No agent is running.
    NoAgent,
    /// The agent's session id is not known yet.
    NoSession,
}

impl SendPromptError {
    /// The message shown to the user.
    pub fn message(&self) -> (r: &'static str)
        ensures
            r@ == match self {
                SendPromptError::NoAgent => "no agent is running"@,
                SendPromptError::NoSession =>
                    "agent session id is not known yet; run :agent recv until :agent status shows a session"@,
            },
    {
        match self {
            SendPromptError::NoAgent => "no agent is running",
            SendPromptError::NoSession =>
                "agent session id is not known yet; run :agent recv until :agent status shows a session",
        }
    }
}

/// The prompt request for the running agent's session, without waiting for
/// its answer: it takes the agent's next request id. Without an agent, or
/// before the session id is known, nothing changes and the error says why.
pub fn detached_prompt_request(
    agent: &mut Option<RunningAgentState>,
    prompt: String,
    meta: Option<Json>,
) -> (r: Result<JsonRpcRequest, SendPromptError>)
    requires
        *old(agent) matches Some(a) ==> (a.session_id is Some ==> a.next_request_id < u64::MAX),
    ensures
        match *old(agent) {
            None => r == Err::<JsonRpcRequest, SendPromptError>(SendPromptError::NoAgent)
                && *final(agent) is None,
            Some(a) => match a.session_id {
                None => r == Err::<JsonRpcRequest, SendPromptError>(SendPromptError::NoSession)
                    && *final(agent) == Some(a),
                Some(s) => {
                    &&& *final(agent) == Some(
                        RunningAgentState { next_request_id: (a.next_request_id + 1) as u64, ..a },
                    )
                    &&& r matches Ok(req) && is_prompt_request(
                        req,
                        a.next_request_id,
                        s@,
                        prompt@,
                        opt_json_view(meta),
                    )
                },
            },
        },
{
    match agent {
        None => Err(SendPromptError::NoAgent),
        Some(a) => match &a.session_id {
            None => Err(SendPromptError::NoSession),
            Some(s) => {
                let session_id = s.clone();
                let request_id = a.next_request_id;
                a.next_request_id = a.next_request_id + 1;
                Ok(prompt_request(request_id, session_id, prompt, meta))
            },
        },
    }
}

/// The error reported when reading from the agent failed: the read error,
/// then the exit status when the process has exited, then what it wrote to
/// stderr, when anything.
pub open spec fn read_failure_text(
    error: Seq<char>,
    exit_status: Option<Seq<char>>,
    stderr: Option<Seq<char>>,
) -> Seq<char> {
    "failed to read agent message: "@ + error + match exit_status {
        Some(s) => "; process exited with "@ + s,
        None => Seq::empty(),
    } + match stderr {
        Some(e) => "; stderr: "@ + e,
        None => Seq::empty(),
    }
}

/// The error reported when reading from the agent failed.
pub fn read_failure_message(error: &str, exit_status: Option<&str>, stderr: Option<&str>) -> (r:
    String)
    ensures
        r@ == read_failure_text(
            error@,
            match exit_status {
                Some(s) => Some(s@),
                None => None,
            },
            match stderr {
                Some(e) => Some(e@),
                None => None,
            },
        ),
{
    let mut m = owned("failed to read agent message: ");
    m.append(error);
    match exit_status {
        Some(s) => {
            m.append("; process exited with ");
            m.append(s);
        },
        None => {},
    }
    match stderr {
        Some(e) => {
            m.append("; stderr: ");
            m.append(e);
        },
        None => {},
    }
    m
}

/// Law: the handshake that opens a session and the requests of the agent
/// started after it never share an id: the handshake uses ids 1 and 2, and
/// a started agent's next request id is above both.
pub proof fn law_handshake_ids_precede_later_requests(
    handshake: Seq<JsonRpcRequest>,
    agent: RunningAgentState,
)
    requires
        handshake.len() == 2,
        handshake[0].id == 1,
        handshake[1].id == 2,
        agent.next_request_id == 3,
    ensures
        forall|i: int| 0 <= i < handshake.len() ==> #[trigger] handshake[i].id < agent.next_request_id,
{
}

/// Where a prompt turn stands.
#[derive(Debug, PartialEq, Eq)]
pub enum TurnPhase {
    /// Waiting for the answer to `session/new`.
    Startup,
    /// Waiting for the answer to the approval-mode request.
    ApprovalMode { mode_request_id: u64 },
    /// Waiting for the answer to the prompt request.
    Prompt { request_id: u64 },
    /// Done, successfully or not.
    Finished,
}

/// A completed prompt turn.
#[derive(Debug)]
pub struct AgentTurn {
    pub request_id: u64,
    pub prompt: String,
    pub pending_start: Option<usize>,
    pub pending_end: Option<usize>,
    pub messages: Vec<JsonRpcMessage>,
}

/// A prompt turn in progress.
#[derive(Debug)]
pub struct PromptTurn {
    pub agent: RunningAgentState,
    pub phase: TurnPhase,
    pub prompt: String,
    pub meta: Option<Json>,
    pub session_id: Option<String>,
    pub session_result: Option<Json>,
    pub messages: Vec<JsonRpcMessage>,
}

/// What the editor does after a message.
#[derive(Debug)]
pub enum TurnOutcome {
    /// Wait for the next message.
    Receive,
    /// Ask the user, send the answer, then wait for the next message.
    Answer(AgentRequestAction),
    /// Send the approval-mode request, then wait for the next message.
    SendModeRequest(JsonRpcRequest),
    /// Send the prompt request, then wait for the next message.
    SendPrompt(JsonRpcRequest),
    /// `session/new` failed: stop the agent and report this message.
    Fail(String),
    /// The turn is complete.
    Finished(AgentTurn),
}

/// The result of feeding one message to a turn. When `deliver` holds, the
/// message is to be passed on to the caller's message callback: it is the
/// last message collected, in the turn's messages or, when the step
/// finishes the turn, in the finished turn's messages.
#[derive(Debug)]
pub struct TurnStep {
    pub deliver: bool,
    pub outcome: TurnOutcome,
}

/// The id of the request that an outcome sends, if it sends one.
pub open spec fn sent_request_id(o: TurnOutcome) -> Option<u64> {
    match o {
        TurnOutcome::SendModeRequest(req) => Some(req.id),
        TurnOutcome::SendPrompt(req) => Some(req.id),
        _ => None,
    }
}

/// `r` is the prompt request with id `id` for the turn.
pub open spec fn is_prompt_request(
    r: JsonRpcRequest,
    id: u64,
    session_id: Seq<char>,
    prompt: Seq<char>,
    meta: Option<JsonValue>,
) -> bool {
    r.is_request(id, "session/prompt"@, prompt_params_value(session_id, prompt, meta))
}

/// `r` is the approval-mode request that a `session/new` result asks for.
pub open spec fn is_mode_request(
    r: JsonRpcRequest,
    id: u64,
    session_id: Seq<char>,
    result: Option<JsonValue>,
) -> bool {
    match approval_mode_choice(result) {
        Some((method, config_id, value)) => r.is_request(
            id,
            method,
            match config_id {
                Some(c) => JsonValue::Object(
                    Seq::empty().push(("sessionId"@, JsonValue::Str(session_id))).push(
                        ("configId"@, JsonValue::Str(c)),
                    ).push(("value"@, JsonValue::Str(value))),
                ),
                None => JsonValue::Object(
                    Seq::empty().push(("sessionId"@, JsonValue::Str(session_id))).push(
                        ("modeId"@, JsonValue::Str(value)),
                    ),
                ),
            },
        ),
        None => false,
    }
}

impl PromptTurn {
    /// The turn's bookkeeping is consistent with its phase, with request ids
    /// left for the requests it still has to send.
    pub open spec fn wf(self) -> bool {
        match self.phase {
            TurnPhase::Startup => self.session_id is None && self.agent.next_request_id < u64::MAX - 1,
            TurnPhase::ApprovalMode { .. } => self.session_id is Some
                && self.agent.next_request_id < u64::MAX,
            TurnPhase::Prompt { .. } => true,
            TurnPhase::Finished => true,
        }
    }

    fn send_prompt(&mut self) -> (r: TurnOutcome)
        requires
            old(self).session_id is Some,
            old(self).agent.next_request_id < u64::MAX,
        ensures
            final(self).agent.name == old(self).agent.name,
            final(self).agent.session_id == old(self).agent.session_id,
            final(self).agent.next_request_id == old(self).agent.next_request_id + 1,
            final(self).phase == (TurnPhase::Prompt {
                request_id: old(self).agent.next_request_id,
            }),
            final(self).prompt == old(self).prompt,
            final(self).session_id == old(self).session_id,
            final(self).session_result == old(self).session_result,
            final(self).messages == old(self).messages,
            r matches TurnOutcome::SendPrompt(req) && is_prompt_request(
                req,
                old(self).agent.next_request_id,
                old(self).session_id->0@,
                old(self).prompt@,
                opt_json_view(old(self).meta),
            ),
    {
        let request_id = self.agent.next_request_id;
        self.agent.next_request_id = self.agent.next_request_id + 1;
        let session_id = copy_opt_string(&self.session_id).unwrap();
        let meta = self.meta.take();
        let request = prompt_request(request_id, session_id, self.prompt.clone(), meta);
        self.phase = TurnPhase::Prompt { request_id };
        TurnOutcome::SendPrompt(request)
    }

    fn finish_startup(&mut self) -> (r: TurnOutcome)
        requires
            old(self).agent.session_id is Some,
            old(self).agent.next_request_id < u64::MAX,
            approval_mode_choice(opt_json_view(old(self).session_result)) is Some
                ==> old(self).agent.next_request_id < u64::MAX - 1,
        ensures
            final(self).wf(),
            final(self).agent.name == old(self).agent.name,
            final(self).agent.session_id == old(self).agent.session_id,
            final(self).session_id == old(self).agent.session_id,
            final(self).prompt == old(self).prompt,
            final(self).session_result == old(self).session_result,
            final(self).messages == old(self).messages,
            final(self).agent.next_request_id == old(self).agent.next_request_id + 1,
            match approval_mode_choice(opt_json_view(old(self).session_result)) {
                Some(_) => {
                    &&& final(self).phase == (TurnPhase::ApprovalMode {
                        mode_request_id: old(self).agent.next_request_id,
                    })
                    &&& final(self).meta == old(self).meta
                    &&& r matches TurnOutcome::SendModeRequest(req) && is_mode_request(
                    req,
                    old(self).agent.next_request_id,
                    old(self).agent.session_id->0@,
                    opt_json_view(old(self).session_result),
                    )
                },
                None => {
                    &&& final(self).phase == (TurnPhase::Prompt {
                        request_id: old(self).agent.next_request_id,
                    })
                    &&& r matches TurnOutcome::SendPrompt(req) && is_prompt_request(
                        req,
                        old(self).agent.next_request_id,
                        old(self).agent.session_id->0@,
                        old(self).prompt@,
                        opt_json_view(old(self).meta),
                    )
                },
            },
    {
        let session_id = copy_opt_string(&self.agent.session_id).unwrap();
        let request = approval_mode_request(
            &mut self.agent,
            session_id.as_str(),
            self.session_result.as_ref(),
        );
        self.session_id = Some(session_id);
        match request {
            Some(req) => {
                self.phase = TurnPhase::ApprovalMode { mode_request_id: req.id };
                TurnOutcome::SendModeRequest(req)
            },
            None => self.send_prompt(),
        }
    }

    /// Starts a turn: sends the prompt at once when the session id is known,
    /// else waits for the answer to `session/new`.
    pub fn begin(agent: RunningAgentState, prompt: String, meta: Option<Json>) -> (r: (
        PromptTurn,
        TurnOutcome,
    ))
        requires
            agent.session_id is Some ==> agent.next_request_id < u64::MAX,
            agent.session_id is None ==> agent.next_request_id < u64::MAX - 1,
        ensures
            r.0.wf(),
            r.0.prompt == prompt,
            r.0.messages@.len() == 0,
            r.0.agent.name == agent.name,
            r.0.agent.session_id == agent.session_id,
            match agent.session_id {
                Some(s) => {
                    &&& r.0.phase == (TurnPhase::Prompt { request_id: agent.next_request_id })
                    &&& r.0.agent.next_request_id == agent.next_request_id + 1
                    &&& r.1 matches TurnOutcome::SendPrompt(req) && is_prompt_request(
                        req,
                        agent.next_request_id,
                        s@,
                        prompt@,
                        opt_json_view(meta),
                    )
                },
                None => {
                    &&& r.0.phase == TurnPhase::Startup
                    &&& r.0.agent.next_request_id == agent.next_request_id
                    &&& r.0.meta == meta
                    &&& r.0.session_result is None
                    &&& r.1 matches TurnOutcome::Receive
                },
            },
    {
        let known = agent.session_id.is_some();
        let mut turn = PromptTurn {
            agent,
            phase: TurnPhase::Startup,
            prompt,
            meta,
            session_id: None,
            session_result: None,
            messages: Vec::new(),
        };
        if known {
            let outcome = turn.finish_startup();
            (turn, outcome)
        } else {
            (turn, TurnOutcome::Receive)
        }
    }

    /// Feeds the next message from the agent to the turn.
    pub fn receive(&mut self, message: JsonRpcMessage) -> (r: TurnStep)
        requires
            old(self).wf(),
            old(self).phase != TurnPhase::Finished,
        ensures
            final(self).wf(),
            final(self).prompt == old(self).prompt,
            final(self).agent.name == old(self).agent.name,
            // Request ids only grow, and a request that the step sends takes
            // an id that no earlier request had.
            old(self).agent.next_request_id <= final(self).agent.next_request_id,
            sent_request_id(r.outcome) matches Some(id) ==> old(self).agent.next_request_id <= id
                < final(self).agent.next_request_id,
            // Startup: record the session, fail on a failed `session/new`,
            // go on once the session id is known.
            old(self).phase == TurnPhase::Startup ==> {
                &&& opt_str_view(final(self).agent.session_id) == match new_session_id_in(
                    message,
                ) {
                    Some(s) => Some(s),
                    None => opt_str_view(old(self).agent.session_id),
                }
                &&& !r.deliver
                &&& match session_failure(message) {
                    Some(msg) => r.outcome matches TurnOutcome::Fail(m) && m@ == msg
                        && final(self).phase == TurnPhase::Finished,
                    None => {
                        &&& final(self).messages@ == old(self).messages@.push(message)
                        &&& opt_json_view(final(self).session_result) == if answers(message, 2) {
                            result_of(message)
                        } else {
                            opt_json_view(old(self).session_result)
                        }
                        &&& if final(self).agent.session_id is None {
                            &&& final(self).phase == TurnPhase::Startup
                            &&& r.outcome matches TurnOutcome::Receive
                        } else {
                            let sid = final(self).agent.session_id->0@;
                            let id = old(self).agent.next_request_id;
                            &&& final(self).session_id == final(self).agent.session_id
                            &&& final(self).agent.next_request_id == id + 1
                            &&& match approval_mode_choice(
                                opt_json_view(final(self).session_result),
                            ) {
                                Some(_) => {
                                    &&& final(self).phase == (TurnPhase::ApprovalMode {
                                        mode_request_id: id,
                                    })
                                    &&& r.outcome matches TurnOutcome::SendModeRequest(req)
                                        && is_mode_request(
                                        req,
                                        id,
                                        sid,
                                        opt_json_view(final(self).session_result),
                                    )
                                },
                                None => {
                                    &&& final(self).phase == (TurnPhase::Prompt {
                                        request_id: id,
                                    })
                                    &&& r.outcome matches TurnOutcome::SendPrompt(req)
                                        && is_prompt_request(
                                        req,
                                        id,
                                        sid,
                                        old(self).prompt@,
                                        opt_json_view(old(self).meta),
                                    )
                                },
                            }
                        }
                    },
                }
            },
            // Later phases: requests of the agent are answered and not collected.
            old(self).phase != TurnPhase::Startup && message is Request ==> {
                &&& !r.deliver
                &&& final(self).phase == old(self).phase
                &&& final(self).messages == old(self).messages
                &&& final(self).agent == old(self).agent
                &&& r.outcome matches TurnOutcome::Answer(a) && action_for(
                    message->Request_0,
                    a,
                )
            },
            // Approval mode: other messages are delivered and collected; the
            // answer to the mode request sends the prompt.
            old(self).phase is ApprovalMode && !(message is Request) ==> {
                let id = old(self).agent.next_request_id;
                &&& r.deliver
                &&& final(self).messages@ == old(self).messages@.push(message)
                &&& opt_str_view(final(self).agent.session_id) == match new_session_id_in(
                    message,
                ) {
                    Some(s) => Some(s),
                    None => opt_str_view(old(self).agent.session_id),
                }
                &&& if answers(message, old(self).phase->mode_request_id) {
                    &&& final(self).phase == (TurnPhase::Prompt { request_id: id })
                    &&& final(self).agent.next_request_id == id + 1
                    &&& r.outcome matches TurnOutcome::SendPrompt(req) && is_prompt_request(
                        req,
                        id,
                        old(self).session_id->0@,
                        old(self).prompt@,
                        opt_json_view(old(self).meta),
                    )
                } else {
                    &&& final(self).phase == old(self).phase
                    &&& final(self).agent.next_request_id == id
                    &&& r.outcome matches TurnOutcome::Receive
                }
            },
            // Prompt: other messages are delivered and collected; the answer
            // to the prompt request completes the turn with all of them.
            old(self).phase is Prompt && !(message is Request) ==> {
                &&& r.deliver
                &&& final(self).agent.next_request_id == old(self).agent.next_request_id
                &&& opt_str_view(final(self).agent.session_id) == match new_session_id_in(
                    message,
                ) {
                    Some(s) => Some(s),
                    None => opt_str_view(old(self).agent.session_id),
                }
                &&& if answers(message, old(self).phase->request_id) {
                    &&& final(self).phase == TurnPhase::Finished
                    &&& r.outcome matches TurnOutcome::Finished(t) && t.request_id == old(
                        self,
                    ).phase->request_id && t.prompt == old(self).prompt && t.messages@ == old(
                        self,
                    ).messages@.push(message) && t.pending_start is None && t.pending_end is None
                } else {
                    &&& final(self).phase == old(self).phase
                    &&& final(self).messages@ == old(self).messages@.push(message)
                    &&& r.outcome matches TurnOutcome::Receive
                }
            },
    {
        match self.phase {
            TurnPhase::Startup => {
                update_session_id(&mut self.agent, &message);
                if let Some(failure) = session_new_failure_message(&message) {
                    self.phase = TurnPhase::Finished;
                    return TurnStep { deliver: false, outcome: TurnOutcome::Fail(failure) };
                }
                if message_answers(&message, 2) {
                    self.session_result = match &message {
                        JsonRpcMessage::Response(r) => match &r.result {
                            Some(v) => Some(v.deep_copy()),
                            None => None,
                        },
                        _ => None,
                    };
                }
                self.messages.push(message);
                if self.agent.session_id.is_none() {
                    return TurnStep { deliver: false, outcome: TurnOutcome::Receive };
                }
                let outcome = self.finish_startup();
                TurnStep { deliver: false, outcome }
            },
            TurnPhase::ApprovalMode { mode_request_id } => {
                match message {
                    JsonRpcMessage::Request(request) => {
                        let action = agent_request_action(request);
                        TurnStep { deliver: false, outcome: TurnOutcome::Answer(action) }
                    },
                    other => {
                        let done = message_answers(&other, mode_request_id);
                        update_session_id(&mut self.agent, &other);
                        self.messages.push(other);
                        if done {
                            let outcome = self.send_prompt();
                            TurnStep { deliver: true, outcome }
                        } else {
                            TurnStep { deliver: true, outcome: TurnOutcome::Receive }
                        }
                    },
                }
            },
            TurnPhase::Prompt { request_id } => {
                match message {
                    JsonRpcMessage::Request(request) => {
                        let action = agent_request_action(request);
                        TurnStep { deliver: false, outcome: TurnOutcome::Answer(action) }
                    },
                    other => {
                        let done = message_answers(&other, request_id);
                        update_session_id(&mut self.agent, &other);
                        self.messages.push(other);
                        if done {
                            self.phase = TurnPhase::Finished;
                            let mut messages: Vec<JsonRpcMessage> = Vec::new();
                            core::mem::swap(&mut messages, &mut self.messages);
                            let turn = AgentTurn {
                                request_id,
                                prompt: self.prompt.clone(),
                                pending_start: None,
                                pending_end: None,
                                messages,
                            };
                            TurnStep { deliver: true, outcome: TurnOutcome::Finished(turn) }
                        } else {
                            TurnStep { deliver: true, outcome: TurnOutcome::Receive }
                        }
                    },
                }
            },
            TurnPhase::Finished => TurnStep { deliver: false, outcome: TurnOutcome::Receive },
        }
    }
}

/// Law: an id answers request `e` exactly when it is the number `e` or the
/// decimal string of `e`: a numeric id or the decimal string of a number
/// matches only that number, and an id that is neither a number nor a
/// string matches nothing.
pub proof fn law_ids_match_their_number(n: u64, e: u64, id: JsonValue)
    ensures
        id_matches(JsonValue::Number(NumberValue::PosInt(n)), e) == (n == e),
        id_matches(JsonValue::Str(decimal(n as nat)), e) == (n == e),
        !(id is Number) && !(id is Str) ==> !id_matches(id, e),
{
    law_decimal_reads_back(n as nat, u64::MAX as nat);
}

} // verus!
