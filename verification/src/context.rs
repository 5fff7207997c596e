//! The editor-context snapshot that accompanies agent requests, and the
//! prompts that summarize it.
use vstd::prelude::*;
use crate::json::{
    Json, JsonValue, ToJson, array_of, json_opt_str, json_str, json_usize, json_str_array,
    new_entries, opt_str_value, push_entry, str_array_value, usize_value, vec_to_json,
};
use crate::runtime::opt_str_view;
use crate::text::{decimal, is_blank, owned, push_decimal, trim};

verus! {

/// A dry-run request: the prompt with the full editor context.
#[derive(Debug)]
pub struct AgentRequest {
    pub schema_version: u32,
    pub kind: &'static str,
    pub prompt: String,
    pub context: EditorSnapshot,
}

/// What the editor shows and holds when a request is made.
#[derive(Debug)]
pub struct EditorSnapshot {
    pub workspace_root: String,
    pub cwd: String,
    pub theme: String,
    pub mode: String,
    pub active_file: ActiveFileSnapshot,
    pub cursor: CursorSnapshot,
    pub visible_ranges: Vec<VisibleRangeSnapshot>,
    pub selections: Vec<SelectionSnapshot>,
    pub open_buffers: Vec<BufferSnapshot>,
    pub diagnostics: Vec<DiagnosticSnapshot>,
    pub lsp_servers: Vec<String>,
    pub git: GitSnapshot,
    pub recent_commands: Vec<String>,
}

/// The document being edited.
#[derive(Debug)]
pub struct ActiveFileSnapshot {
    pub id: String,
    pub display_name: String,
    pub path: Option<String>,
    pub language: Option<String>,
    pub language_id: Option<String>,
    pub modified: bool,
    pub line_ending: String,
    pub encoding: String,
}

/// The primary cursor: zero-based line and column, and character offset.
#[derive(Debug)]
pub struct CursorSnapshot {
    pub line: usize,
    pub column: usize,
    pub char: usize,
}

/// The lines shown in the view.
#[derive(Debug)]
pub struct VisibleRangeSnapshot {
    pub file: String,
    pub start_line: usize,
    pub end_line: usize,
}

/// One selection range.
#[derive(Debug)]
pub struct SelectionSnapshot {
    pub index: usize,
    pub primary: bool,
    pub empty: bool,
    pub anchor: usize,
    pub head: usize,
    pub start: PositionSnapshot,
    pub end: PositionSnapshot,
    pub text: String,
    pub truncated: bool,
}

/// A zero-based line and column.
#[derive(Debug)]
pub struct PositionSnapshot {
    pub line: usize,
    pub column: usize,
}

/// An open buffer.
#[derive(Debug)]
pub struct BufferSnapshot {
    pub id: String,
    pub display_name: String,
    pub path: Option<String>,
    pub language: Option<String>,
    pub modified: bool,
    pub diagnostics: usize,
    pub agent_transcript: bool,
}

/// A diagnostic of the active file.
#[derive(Debug)]
pub struct DiagnosticSnapshot {
    pub line: usize,
    pub severity: Option<String>,
    pub source: Option<String>,
    pub message: String,
}

/// Version-control state of the workspace.
#[derive(Debug)]
pub struct GitSnapshot {
    pub branch: Option<String>,
    pub changed_files: Vec<FileChangeSnapshot>,
    pub changed_files_truncated: bool,
}

/// A changed file, relative to the workspace root.
#[derive(Debug)]
pub struct FileChangeSnapshot {
    pub change: &'static str,
    pub path: String,
    pub from_path: Option<String>,
}

/// `o.unwrap_or(d)` on characters.
pub open spec fn or_chars(o: Option<Seq<char>>, d: Seq<char>) -> Seq<char> {
    match o {
        Some(s) => s,
        None => d,
    }
}

/// The path of the active file, or its display name when it has none.
pub open spec fn active_path(f: ActiveFileSnapshot) -> Seq<char> {
    or_chars(opt_str_view(f.path), f.display_name@)
}

/// A selection worth quoting: not empty and not only whitespace.
pub open spec fn selection_has_text(s: SelectionSnapshot) -> bool {
    !s.empty && trim(s.text@).len() > 0
}

/// The index of the first primary selection worth quoting.
pub open spec fn quoted_selection(sels: Seq<SelectionSnapshot>) -> Option<int>
    decreases sels.len(),
{
    if sels.len() == 0 {
        None
    } else if sels[0].primary && selection_has_text(sels[0]) {
        Some(0)
    } else {
        match quoted_selection(sels.drop_first()) {
            Some(k) => Some(k + 1),
            None => None,
        }
    }
}

/// The number of selections worth quoting.
pub open spec fn text_selection_count(sels: Seq<SelectionSnapshot>) -> nat
    decreases sels.len(),
{
    if sels.len() == 0 {
        0
    } else {
        text_selection_count(sels.drop_last()) + if selection_has_text(sels.last()) {
            1nat
        } else {
            0nat
        }
    }
}

/// The prompt with the primary selection quoted after it: its location (one
/// based), the language of the file and the text, in a fenced block.
pub open spec fn selection_prompt(snapshot: EditorSnapshot, prompt: Seq<char>) -> Seq<char> {
    match quoted_selection(snapshot.selections@) {
        None => prompt,
        Some(i) => {
            let s = snapshot.selections@[i];
            prompt + "\n\nSelected text from "@ + active_path(snapshot.active_file) + ":"@
                + decimal((s.start.line + 1) as nat) + ":"@ + decimal((s.start.column + 1) as nat)
                + "-"@ + decimal((s.end.line + 1) as nat) + ":"@ + decimal(
                (s.end.column + 1) as nat,
            ) + ":\n```"@ + or_chars(opt_str_view(snapshot.active_file.language_id), Seq::empty())
                + "\n"@ + s.text@ + "\n```"@ + if s.truncated {
                "\n\nNote: the selected text was truncated in the editor context."@
            } else {
                Seq::empty()
            }
        },
    }
}

/// The language shown in the context summary.
pub open spec fn summary_language(f: ActiveFileSnapshot) -> Seq<char> {
    match opt_str_view(f.language_id) {
        Some(l) => l,
        None => or_chars(opt_str_view(f.language), "unknown"@),
    }
}

/// The prompt with a summary of the editor context after it.
pub open spec fn context_summary_prompt(snapshot: EditorSnapshot, prompt: Seq<char>) -> Seq<char> {
    prompt + "\n\nEditor context:\n- Workspace root: "@ + snapshot.workspace_root@
        + "\n- Active file: "@ + active_path(snapshot.active_file) + "\n- Language: "@
        + summary_language(snapshot.active_file) + "\n- Cursor: "@ + decimal(
        (snapshot.cursor.line + 1) as nat,
    ) + ":"@ + decimal((snapshot.cursor.column + 1) as nat) + "\n- Non-empty selections: "@
        + decimal(text_selection_count(snapshot.selections@))
        + "\n- Diagnostics in active file: "@ + decimal(snapshot.diagnostics@.len())
}

/// The positions that the selection prompt prints fit their type once one is added.
pub open spec fn quoted_positions_fit(snapshot: EditorSnapshot) -> bool {
    match quoted_selection(snapshot.selections@) {
        Some(i) => {
            let s = snapshot.selections@[i];
            &&& s.start.line < usize::MAX
            &&& s.start.column < usize::MAX
            &&& s.end.line < usize::MAX
            &&& s.end.column < usize::MAX
        },
        None => true,
    }
}

proof fn lemma_quoted_selection(sels: Seq<SelectionSnapshot>, i: int)
    requires
        0 <= i <= sels.len(),
        forall|k: int|
            0 <= k < i ==> !(#[trigger] sels[k].primary && selection_has_text(sels[k])),
        i < sels.len() ==> sels[i].primary && selection_has_text(sels[i]),
    ensures
        quoted_selection(sels) == if i < sels.len() {
            Some(i)
        } else {
            None
        },
    decreases i,
{
    if i > 0 {
        let t = sels.drop_first();
        assert forall|k: int|
            0 <= k < i - 1 implies !(#[trigger] t[k].primary && selection_has_text(t[k])) by {
            assert(t[k] == sels[k + 1]);
        }
        lemma_quoted_selection(t, i - 1);
    }
}

fn find_quoted_selection(sels: &Vec<SelectionSnapshot>) -> (r: Option<usize>)
    ensures
        match r {
            Some(i) => quoted_selection(sels@) == Some(i as int) && i < sels@.len(),
            None => quoted_selection(sels@) is None,
        },
{
    let n = sels.len();
    let mut i: usize = 0;
    while i < n
        invariant
            n == sels@.len(),
            i <= n,
            forall|k: int|
                0 <= k < i ==> !(#[trigger] sels@[k].primary && selection_has_text(sels@[k])),
        decreases n - i,
    {
        let s = &sels[i];
        if s.primary && !s.empty && !is_blank(s.text.as_str()) {
            proof {
                lemma_quoted_selection(sels@, i as int);
            }
            return Some(i);
        }
        i = i + 1;
    }
    proof {
        lemma_quoted_selection(sels@, n as int);
    }
    None
}

/// Whether the positions that the selection prompt prints fit their type
/// once one is added.
pub fn quoted_positions_check(snapshot: &EditorSnapshot) -> (r: bool)
    ensures
        r == quoted_positions_fit(*snapshot),
{
    match find_quoted_selection(&snapshot.selections) {
        Some(i) => {
            let s = &snapshot.selections[i];
            s.start.line < usize::MAX && s.start.column < usize::MAX && s.end.line < usize::MAX
                && s.end.column < usize::MAX
        },
        None => true,
    }
}

fn push_active_path(out: &mut String, f: &ActiveFileSnapshot)
    ensures
        final(out)@ == old(out)@ + active_path(*f),
{
    match &f.path {
        Some(p) => out.append(p.as_str()),
        None => out.append(f.display_name.as_str()),
    }
}

/// Quotes the primary selection after the prompt, when it holds text.
pub fn prompt_with_primary_selection_snapshot(snapshot: &EditorSnapshot, prompt: &str) -> (r:
    String)
    requires
        quoted_positions_fit(*snapshot),
    ensures
        r@ == selection_prompt(*snapshot, prompt@),
{
    let i = match find_quoted_selection(&snapshot.selections) {
        Some(i) => i,
        None => return owned(prompt),
    };
    let s = &snapshot.selections[i];
    let mut out = owned(prompt);
    out.append("\n\nSelected text from ");
    push_active_path(&mut out, &snapshot.active_file);
    out.append(":");
    push_decimal(&mut out, (s.start.line + 1) as u128);
    out.append(":");
    push_decimal(&mut out, (s.start.column + 1) as u128);
    out.append("-");
    push_decimal(&mut out, (s.end.line + 1) as u128);
    out.append(":");
    push_decimal(&mut out, (s.end.column + 1) as u128);
    out.append(":\n```");
    match &snapshot.active_file.language_id {
        Some(l) => out.append(l.as_str()),
        None => {},
    }
    out.append("\n");
    out.append(s.text.as_str());
    out.append("\n```");
    if s.truncated {
        out.append("\n\nNote: the selected text was truncated in the editor context.");
    }
    out
}

fn count_text_selections(sels: &Vec<SelectionSnapshot>) -> (r: usize)
    ensures
        r == text_selection_count(sels@),
{
    let n = sels.len();
    let mut count: usize = 0;
    let mut i: usize = 0;
    while i < n
        invariant
            n == sels@.len(),
            i <= n,
            count == text_selection_count(sels@.subrange(0, i as int)),
            count <= i,
        decreases n - i,
    {
        assert(sels@.subrange(0, i + 1).drop_last() =~= sels@.subrange(0, i as int));
        let s = &sels[i];
        if !s.empty && !is_blank(s.text.as_str()) {
            count = count + 1;
        }
        i = i + 1;
    }
    assert(sels@.subrange(0, n as int) =~= sels@);
    count
}

/// Appends a summary of the editor context to the prompt.
pub fn prompt_with_context_summary_snapshot(snapshot: &EditorSnapshot, prompt: &str) -> (r:
    String)
    requires
        snapshot.cursor.line < usize::MAX,
        snapshot.cursor.column < usize::MAX,
    ensures
        r@ == context_summary_prompt(*snapshot, prompt@),
{
    let mut out = owned(prompt);
    out.append("\n\nEditor context:\n- Workspace root: ");
    out.append(snapshot.workspace_root.as_str());
    out.append("\n- Active file: ");
    push_active_path(&mut out, &snapshot.active_file);
    out.append("\n- Language: ");
    match &snapshot.active_file.language_id {
        Some(l) => out.append(l.as_str()),
        None => match &snapshot.active_file.language {
            Some(l) => out.append(l.as_str()),
            None => out.append("unknown"),
        },
    }
    out.append("\n- Cursor: ");
    push_decimal(&mut out, (snapshot.cursor.line + 1) as u128);
    out.append(":");
    push_decimal(&mut out, (snapshot.cursor.column + 1) as u128);
    out.append("\n- Non-empty selections: ");
    let count = count_text_selections(&snapshot.selections);
    push_decimal(&mut out, count as u128);
    out.append("\n- Diagnostics in active file: ");
    push_decimal(&mut out, snapshot.diagnostics.len() as u128);
    out
}

/// The prompt followed by the context summary and the quoted primary selection.
pub fn prompt_with_editor_context_snapshot(snapshot: &EditorSnapshot, prompt: &str) -> (r: String)
    requires
        snapshot.cursor.line < usize::MAX,
        snapshot.cursor.column < usize::MAX,
        quoted_positions_fit(*snapshot),
    ensures
        r@ == selection_prompt(*snapshot, context_summary_prompt(*snapshot, prompt@)),
{
    let summary = prompt_with_context_summary_snapshot(snapshot, prompt);
    prompt_with_primary_selection_snapshot(snapshot, summary.as_str())
}

/// Law: the user's prompt always comes first and unchanged; quoting the
/// selection and summarizing the context only append to it, and without a
/// selection worth quoting the prompt is left as it is.
pub proof fn law_prompt_comes_first(snapshot: EditorSnapshot, prompt: Seq<char>)
    ensures
        selection_prompt(snapshot, prompt).take(prompt.len() as int) == prompt,
        context_summary_prompt(snapshot, prompt).take(prompt.len() as int) == prompt,
        selection_prompt(snapshot, context_summary_prompt(snapshot, prompt)).take(
            prompt.len() as int,
        ) == prompt,
        quoted_selection(snapshot.selections@) is None ==> selection_prompt(snapshot, prompt)
            == prompt,
{
    let n = prompt.len() as int;
    let summary = context_summary_prompt(snapshot, prompt);
    assert(summary.take(n) =~= prompt);
    assert(selection_prompt(snapshot, prompt).take(n) =~= prompt);
    assert(selection_prompt(snapshot, summary).take(summary.len() as int) =~= summary);
    assert(selection_prompt(snapshot, summary).take(n) =~= prompt) by {
        let full = selection_prompt(snapshot, summary);
        assert forall|i: int| 0 <= i < n implies #[trigger] full[i] == prompt[i] by {
            assert(full.take(summary.len() as int)[i] == summary[i]);
            assert(summary.take(n)[i] == prompt[i]);
        }
    }
}

/// Law: the count of selections worth quoting counts every selection,
/// primary or not, that is not empty and whose text is not all whitespace:
/// one selection counts one exactly when it has text, and the count of two
/// lists put together is the sum of their counts.
pub proof fn law_selection_count_counts_every_selection(
    a: Seq<SelectionSnapshot>,
    b: Seq<SelectionSnapshot>,
    s: SelectionSnapshot,
)
    ensures
        text_selection_count(seq![s]) == if !s.empty && trim(s.text@).len() > 0 {
            1nat
        } else {
            0nat
        },
        text_selection_count(a + b) == text_selection_count(a) + text_selection_count(b),
        text_selection_count(a) <= a.len(),
    decreases b.len(),
{
    assert(seq![s].drop_last() =~= Seq::<SelectionSnapshot>::empty());
    assert(text_selection_count(Seq::<SelectionSnapshot>::empty()) == 0);
    assert(seq![s].last() == s);
    assert(text_selection_count(seq![s]) == text_selection_count(seq![s].drop_last())
        + if selection_has_text(s) {
        1nat
    } else {
        0nat
    });
    if b.len() > 0 {
        assert((a + b).drop_last() =~= a + b.drop_last());
        law_selection_count_counts_every_selection(a, b.drop_last(), s);
    } else {
        assert(a + b =~= a);
    }
    lemma_selection_count_bound(a);
}

proof fn lemma_selection_count_bound(a: Seq<SelectionSnapshot>)
    ensures
        text_selection_count(a) <= a.len(),
    decreases a.len(),
{
    if a.len() > 0 {
        lemma_selection_count_bound(a.drop_last());
    }
}

/// An optional string as JSON.
pub open spec fn ostr(s: Option<String>) -> JsonValue {
    opt_str_value(opt_str_view(s))
}

impl ToJson for ActiveFileSnapshot {
    open spec fn json(&self) -> JsonValue {
        JsonValue::Object(
            Seq::empty().push(("id"@, JsonValue::Str(self.id@))).push(
                ("display_name"@, JsonValue::Str(self.display_name@)),
            ).push(("path"@, ostr(self.path))).push(("language"@, ostr(self.language))).push(
                ("language_id"@, ostr(self.language_id)),
            ).push(("modified"@, JsonValue::Bool(self.modified))).push(
                ("line_ending"@, JsonValue::Str(self.line_ending@)),
            ).push(("encoding"@, JsonValue::Str(self.encoding@))),
        )
    }

    fn to_json(&self) -> (r: Json) {
        let mut e = new_entries();
        push_entry(&mut e, "id", Json::String(self.id.clone()));
        push_entry(&mut e, "display_name", Json::String(self.display_name.clone()));
        push_entry(&mut e, "path", json_opt_str(&self.path));
        push_entry(&mut e, "language", json_opt_str(&self.language));
        push_entry(&mut e, "language_id", json_opt_str(&self.language_id));
        push_entry(&mut e, "modified", Json::Bool(self.modified));
        push_entry(&mut e, "line_ending", Json::String(self.line_ending.clone()));
        push_entry(&mut e, "encoding", Json::String(self.encoding.clone()));
        Json::Object(e)
    }
}

impl ToJson for CursorSnapshot {
    open spec fn json(&self) -> JsonValue {
        JsonValue::Object(
            Seq::empty().push(("line"@, usize_value(self.line))).push(
                ("column"@, usize_value(self.column)),
            ).push(("char"@, usize_value(self.char))),
        )
    }

    fn to_json(&self) -> (r: Json) {
        let mut e = new_entries();
        push_entry(&mut e, "line", json_usize(self.line));
        push_entry(&mut e, "column", json_usize(self.column));
        push_entry(&mut e, "char", json_usize(self.char));
        Json::Object(e)
    }
}

impl ToJson for VisibleRangeSnapshot {
    open spec fn json(&self) -> JsonValue {
        JsonValue::Object(
            Seq::empty().push(("file"@, JsonValue::Str(self.file@))).push(
                ("start_line"@, usize_value(self.start_line)),
            ).push(("end_line"@, usize_value(self.end_line))),
        )
    }

    fn to_json(&self) -> (r: Json) {
        let mut e = new_entries();
        push_entry(&mut e, "file", Json::String(self.file.clone()));
        push_entry(&mut e, "start_line", json_usize(self.start_line));
        push_entry(&mut e, "end_line", json_usize(self.end_line));
        Json::Object(e)
    }
}

impl ToJson for PositionSnapshot {
    open spec fn json(&self) -> JsonValue {
        JsonValue::Object(
            Seq::empty().push(("line"@, usize_value(self.line))).push(
                ("column"@, usize_value(self.column)),
            ),
        )
    }

    fn to_json(&self) -> (r: Json) {
        let mut e = new_entries();
        push_entry(&mut e, "line", json_usize(self.line));
        push_entry(&mut e, "column", json_usize(self.column));
        Json::Object(e)
    }
}

impl ToJson for SelectionSnapshot {
    open spec fn json(&self) -> JsonValue {
        JsonValue::Object(
            Seq::empty().push(("index"@, usize_value(self.index))).push(
                ("primary"@, JsonValue::Bool(self.primary)),
            ).push(("empty"@, JsonValue::Bool(self.empty))).push(
                ("anchor"@, usize_value(self.anchor)),
            ).push(("head"@, usize_value(self.head))).push(("start"@, self.start.json())).push(
                ("end"@, self.end.json()),
            ).push(("text"@, JsonValue::Str(self.text@))).push(
                ("truncated"@, JsonValue::Bool(self.truncated)),
            ),
        )
    }

    fn to_json(&self) -> (r: Json) {
        let mut e = new_entries();
        push_entry(&mut e, "index", json_usize(self.index));
        push_entry(&mut e, "primary", Json::Bool(self.primary));
        push_entry(&mut e, "empty", Json::Bool(self.empty));
        push_entry(&mut e, "anchor", json_usize(self.anchor));
        push_entry(&mut e, "head", json_usize(self.head));
        push_entry(&mut e, "start", self.start.to_json());
        push_entry(&mut e, "end", self.end.to_json());
        push_entry(&mut e, "text", Json::String(self.text.clone()));
        push_entry(&mut e, "truncated", Json::Bool(self.truncated));
        Json::Object(e)
    }
}

impl ToJson for BufferSnapshot {
    open spec fn json(&self) -> JsonValue {
        JsonValue::Object(
            Seq::empty().push(("id"@, JsonValue::Str(self.id@))).push(
                ("display_name"@, JsonValue::Str(self.display_name@)),
            ).push(("path"@, ostr(self.path))).push(("language"@, ostr(self.language))).push(
                ("modified"@, JsonValue::Bool(self.modified)),
            ).push(("diagnostics"@, usize_value(self.diagnostics))).push(
                ("agent_transcript"@, JsonValue::Bool(self.agent_transcript)),
            ),
        )
    }

    fn to_json(&self) -> (r: Json) {
        let mut e = new_entries();
        push_entry(&mut e, "id", Json::String(self.id.clone()));
        push_entry(&mut e, "display_name", Json::String(self.display_name.clone()));
        push_entry(&mut e, "path", json_opt_str(&self.path));
        push_entry(&mut e, "language", json_opt_str(&self.language));
        push_entry(&mut e, "modified", Json::Bool(self.modified));
        push_entry(&mut e, "diagnostics", json_usize(self.diagnostics));
        push_entry(&mut e, "agent_transcript", Json::Bool(self.agent_transcript));
        Json::Object(e)
    }
}

impl ToJson for DiagnosticSnapshot {
    open spec fn json(&self) -> JsonValue {
        JsonValue::Object(
            Seq::empty().push(("line"@, usize_value(self.line))).push(
                ("severity"@, ostr(self.severity)),
            ).push(("source"@, ostr(self.source))).push(
                ("message"@, JsonValue::Str(self.message@)),
            ),
        )
    }

    fn to_json(&self) -> (r: Json) {
        let mut e = new_entries();
        push_entry(&mut e, "line", json_usize(self.line));
        push_entry(&mut e, "severity", json_opt_str(&self.severity));
        push_entry(&mut e, "source", json_opt_str(&self.source));
        push_entry(&mut e, "message", Json::String(self.message.clone()));
        Json::Object(e)
    }
}

impl ToJson for FileChangeSnapshot {
    open spec fn json(&self) -> JsonValue {
        let base = Seq::empty().push(("change"@, JsonValue::Str(self.change@))).push(
            ("path"@, JsonValue::Str(self.path@)),
        );
        match self.from_path {
            Some(f) => JsonValue::Object(base.push(("from_path"@, JsonValue::Str(f@)))),
            None => JsonValue::Object(base),
        }
    }

    fn to_json(&self) -> (r: Json) {
        let mut e = new_entries();
        push_entry(&mut e, "change", json_str(self.change));
        push_entry(&mut e, "path", Json::String(self.path.clone()));
        match &self.from_path {
            Some(f) => push_entry(&mut e, "from_path", Json::String(f.clone())),
            None => {},
        }
        Json::Object(e)
    }
}

impl ToJson for GitSnapshot {
    open spec fn json(&self) -> JsonValue {
        JsonValue::Object(
            Seq::empty().push(("branch"@, ostr(self.branch))).push(
                ("changed_files"@, array_of(self.changed_files@)),
            ).push(("changed_files_truncated"@, JsonValue::Bool(self.changed_files_truncated))),
        )
    }

    fn to_json(&self) -> (r: Json) {
        let mut e = new_entries();
        push_entry(&mut e, "branch", json_opt_str(&self.branch));
        push_entry(&mut e, "changed_files", vec_to_json(&self.changed_files));
        push_entry(&mut e, "changed_files_truncated", Json::Bool(self.changed_files_truncated));
        Json::Object(e)
    }
}

impl ToJson for EditorSnapshot {
    open spec fn json(&self) -> JsonValue {
        JsonValue::Object(
            Seq::empty().push(("workspace_root"@, JsonValue::Str(self.workspace_root@))).push(
                ("cwd"@, JsonValue::Str(self.cwd@)),
            ).push(("theme"@, JsonValue::Str(self.theme@))).push(
                ("mode"@, JsonValue::Str(self.mode@)),
            ).push(("active_file"@, self.active_file.json())).push(
                ("cursor"@, self.cursor.json()),
            ).push(("visible_ranges"@, array_of(self.visible_ranges@))).push(
                ("selections"@, array_of(self.selections@)),
            ).push(("open_buffers"@, array_of(self.open_buffers@))).push(
                ("diagnostics"@, array_of(self.diagnostics@)),
            ).push(("lsp_servers"@, str_array_value(self.lsp_servers@))).push(
                ("git"@, self.git.json()),
            ).push(("recent_commands"@, str_array_value(self.recent_commands@))),
        )
    }

    fn to_json(&self) -> (r: Json) {
        let mut e = new_entries();
        push_entry(&mut e, "workspace_root", Json::String(self.workspace_root.clone()));
        push_entry(&mut e, "cwd", Json::String(self.cwd.clone()));
        push_entry(&mut e, "theme", Json::String(self.theme.clone()));
        push_entry(&mut e, "mode", Json::String(self.mode.clone()));
        push_entry(&mut e, "active_file", self.active_file.to_json());
        push_entry(&mut e, "cursor", self.cursor.to_json());
        push_entry(&mut e, "visible_ranges", vec_to_json(&self.visible_ranges));
        push_entry(&mut e, "selections", vec_to_json(&self.selections));
        push_entry(&mut e, "open_buffers", vec_to_json(&self.open_buffers));
        push_entry(&mut e, "diagnostics", vec_to_json(&self.diagnostics));
        push_entry(&mut e, "lsp_servers", json_str_array(&self.lsp_servers));
        push_entry(&mut e, "git", self.git.to_json());
        push_entry(&mut e, "recent_commands", json_str_array(&self.recent_commands));
        Json::Object(e)
    }
}

impl ToJson for AgentRequest {
    open spec fn json(&self) -> JsonValue {
        let version = JsonValue::Number(crate::json::NumberValue::PosInt(
            self.schema_version as u64,
        ));
        JsonValue::Object(
            Seq::empty()
                .push(("schema_version"@, version))
                .push(("kind"@, JsonValue::Str(self.kind@)))
                .push(("prompt"@, JsonValue::Str(self.prompt@)))
                .push(("context"@, self.context.json())),
        )
    }

    fn to_json(&self) -> (r: Json) {
        let mut e = new_entries();
        push_entry(&mut e, "schema_version", crate::json::json_u64(self.schema_version as u64));
        push_entry(&mut e, "kind", json_str(self.kind));
        push_entry(&mut e, "prompt", Json::String(self.prompt.clone()));
        push_entry(&mut e, "context", self.context.to_json());
        Json::Object(e)
    }
}

/// The dry-run request for `:agent ask`.
pub fn agent_request(prompt: &str, context: EditorSnapshot) -> (r: AgentRequest)
    ensures
        r.schema_version == 1,
        r.kind@ == "ask"@,
        r.prompt@ == prompt@,
        r.context == context,
{
    AgentRequest { schema_version: 1, kind: "ask", prompt: owned(prompt), context }
}

/// Law: the selection quoted is the first one, in order, that is primary,
/// not empty and not all whitespace; none is quoted only when no selection
/// is all three.
pub proof fn law_first_primary_selection_with_text_is_quoted(sels: Seq<SelectionSnapshot>)
    ensures
        quoted_selection(sels) matches Some(k) ==> 0 <= k < sels.len() && sels[k].primary
            && !sels[k].empty && trim(sels[k].text@).len() > 0 && forall|j: int|
            0 <= j < k ==> !(#[trigger] sels[j].primary && selection_has_text(sels[j])),
        quoted_selection(sels) is None ==> forall|k: int|
            0 <= k < sels.len() ==> !(#[trigger] sels[k].primary && selection_has_text(sels[k])),
    decreases sels.len(),
{
    if sels.len() > 0 && !(sels[0].primary && selection_has_text(sels[0])) {
        let rest = sels.drop_first();
        law_first_primary_selection_with_text_is_quoted(rest);
        assert forall|j: int| 1 <= j < sels.len() implies sels[j] == rest[j - 1] by {}
    }
}

} // verus!
