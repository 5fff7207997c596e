//! The agent session record that the editor hands to the agent when a
//! session starts.
use vstd::prelude::*;
use crate::context::EditorSnapshot;
use crate::json::{
    Json, JsonValue, NumberValue, ToJson, json_str, json_u64, new_entries, new_items, push_entry,
    push_item,
};
use crate::text::{decimal, owned, push_decimal};

verus! {

/// A new agent session: id, status, the opening system message and the
/// editor context.
#[derive(Debug)]
pub struct AgentSession {
    pub schema_version: u32,
    pub kind: &'static str,
    pub id: String,
    pub status: AgentSessionStatus,
    pub messages: Vec<AgentMessage>,
    pub context: EditorSnapshot,
}

/// The state of a session.
#[derive(Debug, PartialEq, Eq)]
pub enum AgentSessionStatus {
    NotStarted,
}

/// A message of the session.
#[derive(Debug)]
pub struct AgentMessage {
    pub role: AgentMessageRole,
    pub content: String,
}

/// Who wrote a message.
#[derive(Debug, PartialEq, Eq)]
pub enum AgentMessageRole {
    System,
}

/// `SystemTime::now().duration_since(UNIX_EPOCH)` in milliseconds, 0 when the
/// clock is before the epoch. Nothing is stated of the value: it is the
/// clock's.
#[verifier::external_body]
pub(crate) fn now_millis() -> u128 {
    std::time::SystemTime::now()
        .duration_since(std::time::UNIX_EPOCH)
        .map(|d| d.as_millis())
        .unwrap_or_default()
}

/// The session id for a creation time: `agent-` and the milliseconds.
pub fn session_id_at(millis: u128) -> (r: String)
    ensures
        r@ == "agent-"@ + decimal(millis as nat),
{
    let mut r = owned("agent-");
    push_decimal(&mut r, millis);
    r
}

/// A fresh session id from the clock.
pub fn session_id() -> (r: String)
    ensures
        exists|m: u128| r@ == "agent-"@ + decimal(m as nat),
{
    let m = now_millis();
    session_id_at(m)
}

/// The opening system message of a session.
pub open spec fn opening_message() -> Seq<char> {
    "Agent session initialized from the current Helix editor context."@
}

/// A new session over the editor context, with the given id.
pub fn new_session_with_id(id: String, context: EditorSnapshot) -> (r: AgentSession)
    ensures
        r.schema_version == 1,
        r.kind@ == "session"@,
        r.id == id,
        r.status == AgentSessionStatus::NotStarted,
        r.messages@.len() == 1,
        r.messages@[0].role == AgentMessageRole::System,
        r.messages@[0].content@ == opening_message(),
        r.context == context,
{
    let mut messages: Vec<AgentMessage> = Vec::new();
    messages.push(
        AgentMessage {
            role: AgentMessageRole::System,
            content: owned("Agent session initialized from the current Helix editor context."),
        },
    );
    AgentSession {
        schema_version: 1,
        kind: "session",
        id,
        status: AgentSessionStatus::NotStarted,
        messages,
        context,
    }
}

/// A new session over the editor context, with an id from the clock.
pub fn new_session(context: EditorSnapshot) -> (r: AgentSession)
    ensures
        r.schema_version == 1,
        r.kind@ == "session"@,
        exists|m: u128| r.id@ == "agent-"@ + decimal(m as nat),
        r.status == AgentSessionStatus::NotStarted,
        r.messages@.len() == 1,
        r.messages@[0].role == AgentMessageRole::System,
        r.messages@[0].content@ == opening_message(),
        r.context == context,
{
    new_session_with_id(session_id(), context)
}

impl ToJson for AgentMessage {
    open spec fn json(&self) -> JsonValue {
        JsonValue::Object(
            Seq::empty().push(("role"@, JsonValue::Str("system"@))).push(
                ("content"@, JsonValue::Str(self.content@)),
            ),
        )
    }

    fn to_json(&self) -> (r: Json) {
        let mut e = new_entries();
        push_entry(&mut e, "role", json_str("system"));
        push_entry(&mut e, "content", Json::String(self.content.clone()));
        Json::Object(e)
    }
}

impl ToJson for AgentSession {
    open spec fn json(&self) -> JsonValue {
        JsonValue::Object(
            Seq::empty().push(
                ("schema_version"@, JsonValue::Number(NumberValue::PosInt(self.schema_version as u64))),
            ).push(("kind"@, JsonValue::Str(self.kind@))).push(
                ("id"@, JsonValue::Str(self.id@)),
            ).push(("status"@, JsonValue::Str("not_started"@))).push(
                ("messages"@, crate::json::array_of(self.messages@)),
            ).push(("context"@, self.context.json())),
        )
    }

    fn to_json(&self) -> (r: Json) {
        let mut e = new_entries();
        push_entry(&mut e, "schema_version", json_u64(self.schema_version as u64));
        push_entry(&mut e, "kind", json_str(self.kind));
        push_entry(&mut e, "id", Json::String(self.id.clone()));
        push_entry(&mut e, "status", json_str("not_started"));
        push_entry(&mut e, "messages", crate::json::vec_to_json(&self.messages));
        push_entry(&mut e, "context", self.context.to_json());
        Json::Object(e)
    }
}

} // verus!
