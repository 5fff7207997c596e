//! State of the agent runtime that the editor keeps between commands: the
//! running agent's session bookkeeping, the busy marker, the cancellation
//! generation, the latest patch proposal and the transcript buffer.
//!
//! The editor holds each piece in a process-wide slot; the operations here
//! take the slot they act on.
use vstd::prelude::*;

verus! {

/// The protocol bookkeeping of a running agent process.
#[derive(Debug)]
pub struct RunningAgentState {
    pub name: String,
    pub session_id: Option<String>,
    pub next_request_id: u64,
}

impl RunningAgentState {
    /// The bookkeeping of a freshly started agent: the handshake used
    /// request ids 1 and 2, so the next request is 3.
    pub fn started(name: String) -> (r: RunningAgentState)
        ensures
            r.name == name,
            r.session_id is None,
            r.next_request_id == 3,
    {
        RunningAgentState { name, session_id: None, next_request_id: 3 }
    }
}

/// What the editor shows while an agent command is in flight.
#[derive(Debug, PartialEq, Eq)]
pub struct AgentBusyStatus {
    pub name: String,
    pub session_id: Option<String>,
    pub request_id: Option<u64>,
}

/// The state reported by `:agent status`.
#[derive(Debug, PartialEq, Eq)]
pub enum AgentRuntimeStatus {
    Running { name: String, session_id: Option<String>, next_request_id: u64 },
    Busy(AgentBusyStatus),
    Stopped,
}

/// A patch proposed by the agent, kept for review and apply.
#[derive(Debug, PartialEq, Eq)]
pub struct AgentPatchProposal {
    pub patch: String,
    pub cwd: String,
    pub source_path: Option<String>,
    pub request_id: u64,
}

/// The editor document that shows the transcript.
#[derive(Clone, Copy, Debug, PartialEq, Eq)]
pub struct DocumentId(pub usize);

/// The characters of an optional string.
pub open spec fn opt_str_view(s: Option<String>) -> Option<Seq<char>> {
    match s {
        Some(t) => Some(t@),
        None => None,
    }
}

/// A copy of an optional string.
pub fn copy_opt_string(s: &Option<String>) -> (r: Option<String>)
    ensures
        r == *s,
{
    match s {
        Some(t) => Some(t.clone()),
        None => None,
    }
}

impl AgentBusyStatus {
    /// An exact copy.
    pub fn copy(&self) -> (r: AgentBusyStatus)
        ensures
            r == *self,
    {
        AgentBusyStatus {
            name: self.name.clone(),
            session_id: copy_opt_string(&self.session_id),
            request_id: self.request_id,
        }
    }
}

impl AgentPatchProposal {
    /// An exact copy.
    pub fn copy(&self) -> (r: AgentPatchProposal)
        ensures
            r == *self,
    {
        AgentPatchProposal {
            patch: self.patch.clone(),
            cwd: self.cwd.clone(),
            source_path: copy_opt_string(&self.source_path),
            request_id: self.request_id,
        }
    }
}

/// The runtime status: the running agent's bookkeeping when one runs, else
/// the busy marker when a command is in flight, else stopped.
pub fn status(running: Option<&RunningAgentState>, busy: &Option<AgentBusyStatus>) -> (r:
    AgentRuntimeStatus)
    ensures
        match running {
            Some(a) => r == (AgentRuntimeStatus::Running {
                name: a.name,
                session_id: a.session_id,
                next_request_id: a.next_request_id,
            }),
            None => match busy {
                Some(b) => r == AgentRuntimeStatus::Busy(*b),
                None => r == AgentRuntimeStatus::Stopped,
            },
        },
{
    match running {
        Some(a) => AgentRuntimeStatus::Running {
            name: a.name.clone(),
            session_id: copy_opt_string(&a.session_id),
            next_request_id: a.next_request_id,
        },
        None => match busy {
            Some(b) => AgentRuntimeStatus::Busy(b.copy()),
            None => AgentRuntimeStatus::Stopped,
        },
    }
}

/// Marks the runtime busy with the given status.
pub fn set_busy_agent(busy: &mut Option<AgentBusyStatus>, status: AgentBusyStatus)
    ensures
        *final(busy) == Some(status),
{
    *busy = Some(status);
}

/// Records the session of the in-flight command, when one is in flight.
pub fn update_busy_agent_session(busy: &mut Option<AgentBusyStatus>, session_id: Option<String>)
    ensures
        match *old(busy) {
            Some(b) => *final(busy) == Some(AgentBusyStatus { session_id: session_id, ..b }),
            None => *final(busy) is None,
        },
{
    if let Some(status) = busy {
        status.session_id = session_id;
    }
}

/// Records the request of the in-flight command, when one is in flight.
pub fn update_busy_agent_request(busy: &mut Option<AgentBusyStatus>, request_id: u64)
    ensures
        match *old(busy) {
            Some(b) => *final(busy) == Some(AgentBusyStatus { request_id: Some(request_id), ..b }),
            None => *final(busy) is None,
        },
{
    if let Some(status) = busy {
        status.request_id = Some(request_id);
    }
}

/// Clears the busy marker.
pub fn clear_busy_agent(busy: &mut Option<AgentBusyStatus>)
    ensures
        *final(busy) is None,
{
    *busy = None;
}

/// The current cancellation generation.
pub fn cancel_generation(generation: &u64) -> (r: u64)
    ensures
        r == *generation,
{
    *generation
}

/// Cancels everything in flight: advances the generation and returns the new one.
pub fn cancel_all(generation: &mut u64) -> (r: u64)
    requires
        *old(generation) < u64::MAX,
    ensures
        *final(generation) == *old(generation) + 1,
        r == *final(generation),
{
    *generation = *generation + 1;
    *generation
}

/// Work started under generation `started` counts as cancelled once the
/// current generation is another.
pub open spec fn cancelled(current: u64, started: u64) -> bool {
    current != started
}

/// Work started under `generation` was cancelled since.
pub fn is_cancelled(current: u64, generation: u64) -> (r: bool)
    ensures
        r == cancelled(current, generation),
{
    current != generation
}

/// Law: after `cancel_all`, work started under the generation before it is
/// cancelled, and work started under the new generation is not.
pub proof fn law_cancel_all_cancels_work_in_flight(before: u64)
    requires
        before < u64::MAX,
    ensures
        cancelled((before + 1) as u64, before),
        !cancelled((before + 1) as u64, (before + 1) as u64),
{
}

/// The latest patch proposal, if any.
pub fn latest_patch(slot: &Option<AgentPatchProposal>) -> (r: Option<AgentPatchProposal>)
    ensures
        r == *slot,
{
    match slot {
        Some(p) => Some(p.copy()),
        None => None,
    }
}

/// Keeps a patch proposal as the latest one.
pub fn set_latest_patch(slot: &mut Option<AgentPatchProposal>, patch: AgentPatchProposal)
    ensures
        *final(slot) == Some(patch),
{
    *slot = Some(patch);
}

/// Forgets the latest patch proposal.
pub fn clear_latest_patch(slot: &mut Option<AgentPatchProposal>)
    ensures
        *final(slot) is None,
{
    *slot = None;
}

/// The document that shows the transcript, if one was opened.
pub fn transcript_doc_id(slot: &Option<DocumentId>) -> (r: Option<DocumentId>)
    ensures
        r == *slot,
{
    *slot
}

/// Records the document that shows the transcript.
pub fn set_transcript_doc_id(slot: &mut Option<DocumentId>, doc_id: DocumentId)
    ensures
        *final(slot) == Some(doc_id),
{
    *slot = Some(doc_id);
}

} // verus!
