//! The agent transcript: the turns of the conversation in order, and their
//! rendering into the transcript buffer.
use vstd::prelude::*;
use crate::runtime::opt_str_view;
use crate::text::{join, owned, trim, trimmed};

verus! {

/// One exchange in the transcript.
#[derive(Debug)]
pub struct AgentTranscriptTurn {
    pub id: u64,
    pub kind: AgentTranscriptKind,
    pub prompt: String,
    pub response: Option<String>,
    pub status_message: Option<String>,
    pub status: AgentTranscriptStatus,
}

/// The command that started a turn.
#[derive(Clone, Copy, Debug, PartialEq, Eq)]
pub enum AgentTranscriptKind {
    Chat,
    Explain,
    Fix,
    Refactor,
    Edit,
}

/// Where a turn stands.
#[derive(Clone, Copy, Debug, PartialEq, Eq)]
pub enum AgentTranscriptStatus {
    Pending,
    Complete,
    Cancelled,
    Failed,
}

/// The command name of a turn kind.
pub open spec fn kind_label(kind: AgentTranscriptKind) -> Seq<char> {
    match kind {
        AgentTranscriptKind::Chat => "chat"@,
        AgentTranscriptKind::Explain => "explain"@,
        AgentTranscriptKind::Fix => "fix"@,
        AgentTranscriptKind::Refactor => "refactor"@,
        AgentTranscriptKind::Edit => "edit"@,
    }
}

impl AgentTranscriptKind {
    /// The command name of the kind.
    pub fn label(self) -> (r: &'static str)
        ensures
            r@ == kind_label(self),
    {
        match self {
            AgentTranscriptKind::Chat => "chat",
            AgentTranscriptKind::Explain => "explain",
            AgentTranscriptKind::Fix => "fix",
            AgentTranscriptKind::Refactor => "refactor",
            AgentTranscriptKind::Edit => "edit",
        }
    }
}

/// The index of the first turn with the id.
pub open spec fn first_turn(turns: Seq<AgentTranscriptTurn>, id: u64) -> Option<int>
    decreases turns.len(),
{
    if turns.len() == 0 {
        None
    } else if turns[0].id == id {
        Some(0)
    } else {
        match first_turn(turns.drop_first(), id) {
            Some(k) => Some(k + 1),
            None => None,
        }
    }
}

proof fn lemma_first_turn(turns: Seq<AgentTranscriptTurn>, id: u64, i: int)
    requires
        0 <= i <= turns.len(),
        forall|k: int| 0 <= k < i ==> #[trigger] turns[k].id != id,
        i < turns.len() ==> turns[i].id == id,
    ensures
        first_turn(turns, id) == if i < turns.len() {
            Some(i)
        } else {
            None
        },
    decreases i,
{
    if i > 0 {
        let t = turns.drop_first();
        assert forall|k: int| 0 <= k < i - 1 implies #[trigger] t[k].id != id by {
            assert(t[k] == turns[k + 1]);
        }
        lemma_first_turn(t, id, i - 1);
    }
}

fn find_turn(turns: &Vec<AgentTranscriptTurn>, id: u64) -> (r: Option<usize>)
    ensures
        match r {
            Some(i) => first_turn(turns@, id) == Some(i as int) && i < turns@.len(),
            None => first_turn(turns@, id) is None,
        },
{
    let n = turns.len();
    let mut i: usize = 0;
    while i < n
        invariant
            n == turns@.len(),
            i <= n,
            forall|k: int| 0 <= k < i ==> #[trigger] turns@[k].id != id,
        decreases n - i,
    {
        if turns[i].id == id {
            proof {
                lemma_first_turn(turns@, id, i as int);
            }
            return Some(i);
        }
        i = i + 1;
    }
    proof {
        lemma_first_turn(turns@, id, n as int);
    }
    None
}

/// Turn `i` of `after` is turn `i` of `before` with the given status and
/// response; every other turn is unchanged.
pub open spec fn turn_settled(
    before: Seq<AgentTranscriptTurn>,
    after: Seq<AgentTranscriptTurn>,
    i: int,
    status: AgentTranscriptStatus,
    response: Option<Seq<char>>,
) -> bool {
    &&& after.len() == before.len()
    &&& forall|k: int| 0 <= k < before.len() && k != i ==> #[trigger] after[k] == before[k]
    &&& after[i].id == before[i].id
    &&& after[i].kind == before[i].kind
    &&& after[i].prompt == before[i].prompt
    &&& after[i].status_message == before[i].status_message
    &&& after[i].status == status
    &&& opt_str_view(after[i].response) == response
}

/// Adds a pending turn at the end of the transcript.
pub fn append_transcript_turn(
    turns: &mut Vec<AgentTranscriptTurn>,
    id: u64,
    kind: AgentTranscriptKind,
    prompt: String,
)
    ensures
        final(turns)@.len() == old(turns)@.len() + 1,
        final(turns)@.drop_last() == old(turns)@,
        final(turns)@.last().id == id,
        final(turns)@.last().kind == kind,
        final(turns)@.last().prompt == prompt,
        final(turns)@.last().response is None,
        opt_str_view(final(turns)@.last().status_message) == Some("Working..."@),
        final(turns)@.last().status == AgentTranscriptStatus::Pending,
{
    turns.push(
        AgentTranscriptTurn {
            id,
            kind,
            prompt,
            response: None,
            status_message: Some(owned("Working...")),
            status: AgentTranscriptStatus::Pending,
        },
    );
    assert(final(turns)@.drop_last() =~= old(turns)@);
}

fn update_transcript_turn(
    turns: &mut Vec<AgentTranscriptTurn>,
    id: u64,
    status: AgentTranscriptStatus,
    response: Option<String>,
)
    ensures
        match first_turn(old(turns)@, id) {
            Some(i) => turn_settled(old(turns)@, final(turns)@, i, status, opt_str_view(response)),
            None => final(turns)@ == old(turns)@,
        },
{
    if let Some(i) = find_turn(turns, id) {
        let mut t = turns.remove(i);
        t.status = status;
        t.response = response;
        turns.insert(i, t);
    }
}

/// Marks the first turn with the id complete with the response.
pub fn complete_transcript_turn(turns: &mut Vec<AgentTranscriptTurn>, id: u64, response: String)
    ensures
        match first_turn(old(turns)@, id) {
            Some(i) => turn_settled(
                old(turns)@,
                final(turns)@,
                i,
                AgentTranscriptStatus::Complete,
                Some(response@),
            ),
            None => final(turns)@ == old(turns)@,
        },
{
    update_transcript_turn(turns, id, AgentTranscriptStatus::Complete, Some(response));
}

/// Marks the first turn with the id failed with the error text.
pub fn fail_transcript_turn(turns: &mut Vec<AgentTranscriptTurn>, id: u64, response: String)
    ensures
        match first_turn(old(turns)@, id) {
            Some(i) => turn_settled(
                old(turns)@,
                final(turns)@,
                i,
                AgentTranscriptStatus::Failed,
                Some(response@),
            ),
            None => final(turns)@ == old(turns)@,
        },
{
    update_transcript_turn(turns, id, AgentTranscriptStatus::Failed, Some(response));
}

/// Appends streamed text to the response of the first turn with the id; an
/// empty chunk changes nothing.
pub fn append_transcript_turn_response(
    turns: &mut Vec<AgentTranscriptTurn>,
    id: u64,
    chunk: String,
)
    ensures
        match first_turn(old(turns)@, id) {
            Some(i) if chunk@.len() > 0 => {
                let t = old(turns)@[i];
                &&& final(turns)@.len() == old(turns)@.len()
                &&& forall|k: int|
                    0 <= k < old(turns)@.len() && k != i ==> #[trigger] final(turns)@[k] == old(
                        turns,
                    )@[k]
                &&& final(turns)@[i].id == t.id
                &&& final(turns)@[i].kind == t.kind
                &&& final(turns)@[i].prompt == t.prompt
                &&& final(turns)@[i].status_message == t.status_message
                &&& final(turns)@[i].status == t.status
                &&& opt_str_view(final(turns)@[i].response) == Some(
                    match opt_str_view(t.response) {
                        Some(r) => r,
                        None => Seq::empty(),
                    } + chunk@,
                )
            },
            _ => final(turns)@ == old(turns)@,
        },
{
    if chunk.as_str().is_empty() {
        return;
    }
    if let Some(i) = find_turn(turns, id) {
        let mut t = turns.remove(i);
        let mut response = match t.response {
            Some(r) => r,
            None => String::new(),
        };
        response.append(chunk.as_str());
        t.response = Some(response);
        turns.insert(i, t);
    }
}

/// Sets the progress message of the first turn with the id.
pub fn update_transcript_turn_status(
    turns: &mut Vec<AgentTranscriptTurn>,
    id: u64,
    status_message: String,
)
    ensures
        match first_turn(old(turns)@, id) {
            Some(i) => {
                let t = old(turns)@[i];
                &&& final(turns)@.len() == old(turns)@.len()
                &&& forall|k: int|
                    0 <= k < old(turns)@.len() && k != i ==> #[trigger] final(turns)@[k] == old(
                        turns,
                    )@[k]
                &&& final(turns)@[i].id == t.id
                &&& final(turns)@[i].kind == t.kind
                &&& final(turns)@[i].prompt == t.prompt
                &&& final(turns)@[i].response == t.response
                &&& final(turns)@[i].status == t.status
                &&& final(turns)@[i].status_message == Some(status_message)
            },
            None => final(turns)@ == old(turns)@,
        },
{
    if let Some(i) = find_turn(turns, id) {
        let mut t = turns.remove(i);
        t.status_message = Some(status_message);
        turns.insert(i, t);
    }
}

/// The number of pending turns.
pub open spec fn pending_count(turns: Seq<AgentTranscriptTurn>) -> nat
    decreases turns.len(),
{
    if turns.len() == 0 {
        0
    } else {
        pending_count(turns.drop_last()) + if turns.last().status
            == AgentTranscriptStatus::Pending {
            1nat
        } else {
            0nat
        }
    }
}

proof fn lemma_pending_count_bound(turns: Seq<AgentTranscriptTurn>)
    ensures
        pending_count(turns) <= turns.len(),
    decreases turns.len(),
{
    if turns.len() > 0 {
        lemma_pending_count_bound(turns.drop_last());
    }
}

/// Cancels every pending turn and returns how many there were: each
/// becomes cancelled with the response `Cancelled`; no turn is pending
/// afterwards, and the other turns are unchanged.
pub fn cancel_pending_transcript_turns(turns: &mut Vec<AgentTranscriptTurn>) -> (r: usize)
    ensures
        r == pending_count(old(turns)@),
        final(turns)@.len() == old(turns)@.len(),
        forall|k: int|
            0 <= k < old(turns)@.len() ==> {
                let (t, u) = (old(turns)@[k], #[trigger] final(turns)@[k]);
                if t.status == AgentTranscriptStatus::Pending {
                    &&& u.id == t.id
                    &&& u.kind == t.kind
                    &&& u.prompt == t.prompt
                    &&& u.status_message == t.status_message
                    &&& u.status == AgentTranscriptStatus::Cancelled
                    &&& opt_str_view(u.response) == Some("Cancelled"@)
                } else {
                    u == t
                }
            },
        forall|k: int|
            0 <= k < final(turns)@.len() ==> #[trigger] final(turns)@[k].status
                != AgentTranscriptStatus::Pending,
{
    let ghost before = turns@;
    let n = turns.len();
    let mut cancelled: usize = 0;
    let mut i: usize = 0;
    while i < n
        invariant
            n == turns@.len(),
            n == before.len(),
            i <= n,
            cancelled == pending_count(before.subrange(0, i as int)),
            forall|k: int| i <= k < n ==> #[trigger] turns@[k] == before[k],
            forall|k: int|
                0 <= k < i ==> {
                    let (t, u) = (before[k], #[trigger] turns@[k]);
                    if t.status == AgentTranscriptStatus::Pending {
                        &&& u.id == t.id
                        &&& u.kind == t.kind
                        &&& u.prompt == t.prompt
                        &&& u.status_message == t.status_message
                        &&& u.status == AgentTranscriptStatus::Cancelled
                        &&& opt_str_view(u.response) == Some("Cancelled"@)
                    } else {
                        u == t
                    }
                },
        decreases n - i,
    {
        proof {
            assert(before.subrange(0, i + 1).drop_last() =~= before.subrange(0, i as int));
            lemma_pending_count_bound(before.subrange(0, i as int));
        }
        let pending = match turns[i].status {
            AgentTranscriptStatus::Pending => true,
            _ => false,
        };
        if pending {
            let mut t = turns.remove(i);
            t.status = AgentTranscriptStatus::Cancelled;
            t.response = Some(owned("Cancelled"));
            turns.insert(i, t);
            cancelled = cancelled + 1;
        }
        i = i + 1;
    }
    assert(before.subrange(0, n as int) =~= before);
    cancelled
}

/// Law: a turn appended under an id that no earlier turn carries is the turn
/// that completing, failing, streaming into or updating that id reaches.
pub proof fn law_appended_turn_is_found(
    before: Seq<AgentTranscriptTurn>,
    after: Seq<AgentTranscriptTurn>,
    id: u64,
)
    requires
        first_turn(before, id) is None,
        after.len() == before.len() + 1,
        after.drop_last() == before,
        after.last().id == id,
    ensures
        first_turn(after, id) == Some(before.len() as int),
{
    assert forall|k: int| 0 <= k < before.len() implies #[trigger] after[k].id != id by {
        assert(after[k] == before[k]);
        if before[k].id == id {
            lemma_first_turn_some(before, id, k);
        }
    }
    lemma_first_turn(after, id, before.len() as int);
}

proof fn lemma_first_turn_some(turns: Seq<AgentTranscriptTurn>, id: u64, k: int)
    requires
        0 <= k < turns.len(),
        turns[k].id == id,
    ensures
        first_turn(turns, id) is Some,
    decreases turns.len(),
{
    if turns[0].id != id {
        let t = turns.drop_first();
        assert(t[k - 1] == turns[k]);
        lemma_first_turn_some(t, id, k - 1);
    }
}

/// Law: once no turn is pending, cancelling again cancels nothing.
pub proof fn law_cancel_is_idempotent(turns: Seq<AgentTranscriptTurn>)
    requires
        forall|k: int| 0 <= k < turns.len() ==> #[trigger] turns[k].status
            != AgentTranscriptStatus::Pending,
    ensures
        pending_count(turns) == 0,
    decreases turns.len(),
{
    if turns.len() > 0 {
        let t = turns.drop_last();
        assert forall|k: int| 0 <= k < t.len() implies #[trigger] t[k].status
            != AgentTranscriptStatus::Pending by {
            assert(t[k] == turns[k]);
        }
        law_cancel_is_idempotent(t);
    }
}

/// Law: a turn completed with a response renders as its trimmed prompt
/// followed by exactly that response.
pub proof fn law_completed_turn_renders_response(
    before: Seq<AgentTranscriptTurn>,
    after: Seq<AgentTranscriptTurn>,
    i: int,
    response: Seq<char>,
)
    requires
        0 <= i < before.len(),
        turn_settled(before, after, i, AgentTranscriptStatus::Complete, Some(response)),
    ensures
        render_turn(after[i]) == "**You:**\n\n"@ + trim(before[i].prompt@) + "\n\n"@
            + "**Codex:**\n\n"@ + response,
{
}

/// Empties the transcript.
pub fn clear_transcript_turns(turns: &mut Vec<AgentTranscriptTurn>)
    ensures
        final(turns)@.len() == 0,
{
    turns.clear();
}

/// What follows `**Codex:**` for a turn: the response so far and the
/// progress message while pending, `Cancelled` once cancelled, else the
/// response.
pub open spec fn turn_reply(t: AgentTranscriptTurn) -> Seq<char> {
    match t.status {
        AgentTranscriptStatus::Pending => {
            let status = match opt_str_view(t.status_message) {
                Some(m) => m,
                None => "Working..."@,
            };
            match opt_str_view(t.response) {
                Some(r) => if r.len() > 0 {
                    r + "\n\n"@ + status
                } else {
                    status
                },
                None => status,
            }
        },
        AgentTranscriptStatus::Cancelled => "Cancelled"@,
        _ => match opt_str_view(t.response) {
            Some(r) => r,
            None => Seq::empty(),
        },
    }
}

/// The rendering of one turn.
pub open spec fn render_turn(t: AgentTranscriptTurn) -> Seq<char> {
    "**You:**\n\n"@ + trim(t.prompt@) + "\n\n"@ + "**Codex:**\n\n"@ + turn_reply(t)
}

/// The transcript: the rendered turns separated by rules.
pub open spec fn rendered_transcript(turns: Seq<AgentTranscriptTurn>) -> Seq<char> {
    join(turns.map_values(|t: AgentTranscriptTurn| render_turn(t)), "\n\n---\n\n"@)
}

fn push_turn(out: &mut String, t: &AgentTranscriptTurn)
    ensures
        final(out)@ == old(out)@ + render_turn(*t),
{
    out.append("**You:**\n\n");
    let prompt = trimmed(t.prompt.as_str());
    out.append(prompt.as_str());
    out.append("\n\n");
    out.append("**Codex:**\n\n");
    match t.status {
        AgentTranscriptStatus::Pending => {
            let status = match &t.status_message {
                Some(m) => m.as_str(),
                None => "Working...",
            };
            match &t.response {
                Some(r) => {
                    if !r.as_str().is_empty() {
                        out.append(r.as_str());
                        out.append("\n\n");
                        out.append(status);
                    } else {
                        out.append(status);
                    }
                },
                None => out.append(status),
            }
        },
        AgentTranscriptStatus::Cancelled => out.append("Cancelled"),
        _ => match &t.response {
            Some(r) => out.append(r.as_str()),
            None => {},
        },
    }
}

/// Renders the transcript buffer.
pub fn render_transcript(turns: &Vec<AgentTranscriptTurn>) -> (r: String)
    ensures
        r@ == rendered_transcript(turns@),
{
    let mut out = String::new();
    let n = turns.len();
    let mut i: usize = 0;
    while i < n
        invariant
            n == turns@.len(),
            i <= n,
            out@ == rendered_transcript(turns@.subrange(0, i as int)),
        decreases n - i,
    {
        let ghost before = turns@.subrange(0, i as int).map_values(
            |t: AgentTranscriptTurn| render_turn(t),
        );
        let ghost after = turns@.subrange(0, i + 1).map_values(
            |t: AgentTranscriptTurn| render_turn(t),
        );
        assert(after.drop_last() =~= before);
        if i > 0 {
            out.append("\n\n---\n\n");
        }
        push_turn(&mut out, &turns[i]);
        assert(out@ =~= join(after, "\n\n---\n\n"@));
        i = i + 1;
    }
    assert(turns@.subrange(0, n as int) =~= turns@);
    out
}

/// Law: the turn an id reaches is the first turn, in transcript order,
/// with that id; no turn is reached only when no turn has the id.
pub proof fn law_id_reaches_its_first_turn(turns: Seq<AgentTranscriptTurn>, id: u64)
    ensures
        first_turn(turns, id) matches Some(k) ==> 0 <= k < turns.len() && turns[k].id == id
            && forall|j: int| 0 <= j < k ==> #[trigger] turns[j].id != id,
        first_turn(turns, id) is None ==> forall|k: int|
            0 <= k < turns.len() ==> #[trigger] turns[k].id != id,
    decreases turns.len(),
{
    if turns.len() > 0 && turns[0].id != id {
        let rest = turns.drop_first();
        law_id_reaches_its_first_turn(rest, id);
        assert forall|j: int| 1 <= j < turns.len() implies turns[j].id == rest[j - 1].id by {}
    }
}

/// Law: the pending turns are counted one each, wherever they are: a
/// single turn counts one exactly when it is pending, and the count of two
/// transcripts put together is the sum of their counts.
pub proof fn law_pending_turns_are_counted(
    a: Seq<AgentTranscriptTurn>,
    b: Seq<AgentTranscriptTurn>,
    t: AgentTranscriptTurn,
)
    ensures
        pending_count(seq![t]) == if t.status == AgentTranscriptStatus::Pending {
            1nat
        } else {
            0nat
        },
        pending_count(a + b) == pending_count(a) + pending_count(b),
    decreases b.len(),
{
    assert(seq![t].drop_last() =~= Seq::<AgentTranscriptTurn>::empty());
    assert(pending_count(Seq::<AgentTranscriptTurn>::empty()) == 0);
    assert(seq![t].last() == t);
    if b.len() > 0 {
        assert((a + b).drop_last() =~= a + b.drop_last());
        law_pending_turns_are_counted(a, b.drop_last(), t);
    } else {
        assert(a + b =~= a);
    }
}

} // verus!
