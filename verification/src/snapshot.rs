//! Assembly of the editor snapshot from what the editor reports: which
//! document the context describes, how each selection is quoted, and which
//! parts the agent configuration lets through.
use vstd::prelude::*;
use crate::config::AgentConfig;
use crate::context::{
    ActiveFileSnapshot, BufferSnapshot, CursorSnapshot, DiagnosticSnapshot, EditorSnapshot,
    FileChangeSnapshot, GitSnapshot, PositionSnapshot, SelectionSnapshot, VisibleRangeSnapshot,
};
use crate::runtime::opt_str_view;
use crate::text::{chars_of, decimal, decimal_string, owned, push_char};

verus! {

/// The most characters of a selection that the snapshot quotes.
pub const MAX_SELECTION_TEXT_CHARS: usize = 2000;

/// The most command-history entries that the snapshot lists.
pub const MAX_RECENT_COMMANDS: usize = 20;

/// The most changed files that the snapshot lists.
pub const MAX_CHANGED_FILES: usize = 100;

/// The most diagnostics of the active file that the snapshot lists.
pub const MAX_DIAGNOSTICS: usize = 50;

/// The first `n` characters of `s`, or all of them when it is shorter.
pub open spec fn prefix(s: Seq<char>, n: nat) -> Seq<char> {
    if s.len() <= n {
        s
    } else {
        s.take(n as int)
    }
}

/// The first `n` characters of `s`.
pub fn take_chars(s: &str, n: usize) -> (r: String)
    ensures
        r@ == prefix(s@, n as nat),
{
    let cs = chars_of(s);
    let mut out = String::new();
    let mut i: usize = 0;
    while i < cs.len() && i < n
        invariant
            cs@ == s@,
            i <= cs@.len(),
            i <= n,
            out@ == cs@.take(i as int),
        decreases cs@.len() - i,
    {
        push_char(&mut out, cs[i]);
        assert(cs@.take(i + 1) =~= cs@.take(i as int).push(cs@[i as int]));
        i = i + 1;
    }
    assert(out@ =~= prefix(s@, n as nat));
    out
}

/// The editor's mode.
#[derive(Clone, Copy, Debug, PartialEq, Eq)]
pub enum EditorMode {
    Normal,
    Select,
    Insert,
}

/// The lower-case name of a mode.
pub open spec fn mode_name(mode: EditorMode) -> Seq<char> {
    match mode {
        EditorMode::Normal => "normal"@,
        EditorMode::Select => "select"@,
        EditorMode::Insert => "insert"@,
    }
}

impl EditorMode {
    /// The lower-case name of the mode.
    pub fn name(self) -> (r: &'static str)
        ensures
            r@ == mode_name(self),
    {
        match self {
            EditorMode::Normal => "normal",
            EditorMode::Select => "select",
            EditorMode::Insert => "insert",
        }
    }
}

/// One selection range as the editor holds it: anchor and head as character
/// offsets, the zero-based coordinates of its start and end, and the text
/// between them.
#[derive(Debug)]
pub struct SelectionRange {
    pub anchor: usize,
    pub head: usize,
    pub start: PositionSnapshot,
    pub end: PositionSnapshot,
    pub text: String,
}

/// The number of characters a range covers.
pub open spec fn range_len(r: SelectionRange) -> nat {
    if r.head >= r.anchor {
        (r.head - r.anchor) as nat
    } else {
        (r.anchor - r.head) as nat
    }
}

/// A range counts as empty when it covers nothing, or, outside select
/// mode, when it is the one-character cursor.
pub open spec fn range_is_empty(r: SelectionRange, select_mode: bool) -> bool {
    r.anchor == r.head || (range_len(r) <= 1 && !select_mode)
}

/// `s` is the snapshot of range `r`, the `index`-th of the selection.
pub open spec fn selection_of(
    s: SelectionSnapshot,
    index: int,
    primary_index: int,
    select_mode: bool,
    r: SelectionRange,
) -> bool {
    let empty = range_is_empty(r, select_mode);
    &&& s.index == index
    &&& s.primary == (index == primary_index)
    &&& s.empty == empty
    &&& s.anchor == r.anchor
    &&& s.head == r.head
    &&& s.start == r.start
    &&& s.end == r.end
    &&& s.text@ == if empty {
        Seq::empty()
    } else {
        prefix(r.text@, MAX_SELECTION_TEXT_CHARS as nat)
    }
    &&& s.truncated == (range_len(r) > MAX_SELECTION_TEXT_CHARS)
}

/// The snapshot of one selection range.
pub fn selection_snapshot(index: usize, primary_index: usize, select_mode: bool, r: &SelectionRange)
    -> (s: SelectionSnapshot)
    ensures
        selection_of(s, index as int, primary_index as int, select_mode, *r),
{
    let len = if r.head >= r.anchor {
        r.head - r.anchor
    } else {
        r.anchor - r.head
    };
    let empty = r.anchor == r.head || (len <= 1 && !select_mode);
    let text = if empty {
        String::new()
    } else {
        take_chars(r.text.as_str(), MAX_SELECTION_TEXT_CHARS)
    };
    SelectionSnapshot {
        index,
        primary: index == primary_index,
        empty,
        anchor: r.anchor,
        head: r.head,
        start: PositionSnapshot { line: r.start.line, column: r.start.column },
        end: PositionSnapshot { line: r.end.line, column: r.end.column },
        text,
        truncated: len > MAX_SELECTION_TEXT_CHARS,
    }
}

/// `r` snapshots the ranges one for one, in order.
pub open spec fn selections_of(
    r: Seq<SelectionSnapshot>,
    ranges: Seq<SelectionRange>,
    primary_index: int,
    select_mode: bool,
) -> bool {
    &&& r.len() == ranges.len()
    &&& forall|i: int|
        0 <= i < ranges.len() ==> selection_of(
            #[trigger] r[i],
            i,
            primary_index,
            select_mode,
            ranges[i],
        )
}

/// The snapshots of all selection ranges, in order.
pub fn selections_snapshot(ranges: &Vec<SelectionRange>, primary_index: usize, select_mode: bool)
    -> (r: Vec<SelectionSnapshot>)
    ensures
        selections_of(r@, ranges@, primary_index as int, select_mode),
{
    let mut out: Vec<SelectionSnapshot> = Vec::new();
    let n = ranges.len();
    let mut i: usize = 0;
    while i < n
        invariant
            n == ranges@.len(),
            i <= n,
            out@.len() == i,
            forall|k: int|
                0 <= k < i ==> selection_of(
                    #[trigger] out@[k],
                    k,
                    primary_index as int,
                    select_mode,
                    ranges@[k],
                ),
        decreases n - i,
    {
        let s = selection_snapshot(i, primary_index, select_mode, &ranges[i]);
        out.push(s);
        i = i + 1;
    }
    out
}

/// The lines shown in the view: from the first visible line, as many as the
/// view is high, saturating at the largest line number.
pub open spec fn visible_end(start_line: usize, height: u16) -> usize {
    if start_line + height > usize::MAX {
        usize::MAX
    } else {
        (start_line + height) as usize
    }
}

/// `r` is the visible range of the view when the visible buffer is
/// included, else nothing.
pub open spec fn visible_ranges_of(
    r: Seq<VisibleRangeSnapshot>,
    include_visible_buffer: bool,
    file: Seq<char>,
    start_line: usize,
    height: u16,
) -> bool {
    &&& r.len() == if include_visible_buffer {
        1nat
    } else {
        0nat
    }
    &&& include_visible_buffer ==> r[0].file@ == file && r[0].start_line == start_line
        && r[0].end_line == visible_end(start_line, height)
}

/// The visible range of the view, when the configuration includes the
/// visible buffer.
pub fn visible_ranges_snapshot(
    include_visible_buffer: bool,
    file: &str,
    start_line: usize,
    height: u16,
) -> (r: Vec<VisibleRangeSnapshot>)
    ensures
        visible_ranges_of(r@, include_visible_buffer, file@, start_line, height),
{
    let mut r: Vec<VisibleRangeSnapshot> = Vec::new();
    if include_visible_buffer {
        let h = height as usize;
        let end_line = if start_line > usize::MAX - h {
            usize::MAX
        } else {
            start_line + h
        };
        r.push(VisibleRangeSnapshot { file: owned(file), start_line, end_line });
    }
    r
}

/// An open document as the editor reports it.
#[derive(Debug)]
pub struct BufferFacts {
    pub id: usize,
    pub display_name: String,
    pub path: Option<String>,
    pub language: Option<String>,
    pub modified: bool,
    pub diagnostics: usize,
}

/// `b` is the snapshot of the open document `f`.
pub open spec fn buffer_of(
    b: BufferSnapshot,
    f: BufferFacts,
    include_diagnostics: bool,
    transcript: Option<usize>,
) -> bool {
    &&& b.id@ == decimal(f.id as nat)
    &&& b.display_name@ == f.display_name@
    &&& opt_str_view(b.path) == opt_str_view(f.path)
    &&& opt_str_view(b.language) == opt_str_view(f.language)
    &&& b.modified == f.modified
    &&& b.diagnostics == if include_diagnostics {
        f.diagnostics
    } else {
        0
    }
    &&& b.agent_transcript == (transcript == Some(f.id))
}

fn copy_opt(s: &Option<String>) -> (r: Option<String>)
    ensures
        opt_str_view(r) == opt_str_view(*s),
{
    match s {
        Some(t) => Some(t.clone()),
        None => None,
    }
}

/// `r` lists the open documents one for one when the visible buffer is
/// included, else nothing.
pub open spec fn buffers_of(
    r: Seq<BufferSnapshot>,
    docs: Seq<BufferFacts>,
    include_visible_buffer: bool,
    include_diagnostics: bool,
    transcript: Option<usize>,
) -> bool {
    &&& r.len() == if include_visible_buffer {
        docs.len()
    } else {
        0
    }
    &&& include_visible_buffer ==> forall|i: int|
        0 <= i < docs.len() ==> buffer_of(#[trigger] r[i], docs[i], include_diagnostics, transcript)
}

/// The open documents, when the configuration includes the visible buffer;
/// their diagnostics are counted only when it includes diagnostics.
pub fn open_buffers_snapshot(
    docs: &Vec<BufferFacts>,
    include_visible_buffer: bool,
    include_diagnostics: bool,
    transcript: Option<usize>,
) -> (r: Vec<BufferSnapshot>)
    ensures
        buffers_of(r@, docs@, include_visible_buffer, include_diagnostics, transcript),
{
    let mut out: Vec<BufferSnapshot> = Vec::new();
    if !include_visible_buffer {
        return out;
    }
    let n = docs.len();
    let mut i: usize = 0;
    while i < n
        invariant
            n == docs@.len(),
            i <= n,
            out@.len() == i,
            forall|k: int|
                0 <= k < i ==> buffer_of(
                    #[trigger] out@[k],
                    docs@[k],
                    include_diagnostics,
                    transcript,
                ),
        decreases n - i,
    {
        let d = &docs[i];
        let is_transcript = match transcript {
            Some(t) => t == d.id,
            None => false,
        };
        out.push(
            BufferSnapshot {
                id: decimal_string(d.id as u128),
                display_name: d.display_name.clone(),
                path: copy_opt(&d.path),
                language: copy_opt(&d.language),
                modified: d.modified,
                diagnostics: if include_diagnostics {
                    d.diagnostics
                } else {
                    0
                },
                agent_transcript: is_transcript,
            },
        );
        i = i + 1;
    }
    out
}

/// The first `n` items of `s`, or all of them when it is shorter.
pub open spec fn first_items<T>(s: Seq<T>, n: nat) -> Seq<T> {
    if s.len() <= n {
        s
    } else {
        s.take(n as int)
    }
}

/// The diagnostics of the active file, at most [`MAX_DIAGNOSTICS`], when the
/// configuration includes diagnostics.
pub fn diagnostics_snapshot(diagnostics: Vec<DiagnosticSnapshot>, include_diagnostics: bool) -> (r:
    Vec<DiagnosticSnapshot>)
    ensures
        r@ == if include_diagnostics {
            first_items(diagnostics@, MAX_DIAGNOSTICS as nat)
        } else {
            Seq::empty()
        },
{
    if !include_diagnostics {
        return Vec::new();
    }
    let mut d = diagnostics;
    d.truncate(MAX_DIAGNOSTICS);
    d
}

/// `r` is the start of the history, each command with its `:` prefix, when
/// command history is included, else nothing.
pub open spec fn commands_of(
    r: Seq<String>,
    history: Seq<String>,
    include_command_history: bool,
) -> bool {
    &&& r.len() == if include_command_history {
        first_items(history, MAX_RECENT_COMMANDS as nat).len()
    } else {
        0
    }
    &&& forall|i: int| 0 <= i < r.len() ==> #[trigger] r[i]@ == ":"@ + history[i]@
}

/// The latest commands of the history, at most [`MAX_RECENT_COMMANDS`], each
/// with its `:` prefix, when the configuration includes command history.
pub fn recent_commands_snapshot(history: &Vec<String>, include_command_history: bool) -> (r: Vec<
    String,
>)
    ensures
        commands_of(r@, history@, include_command_history),
{
    let mut out: Vec<String> = Vec::new();
    if !include_command_history {
        return out;
    }
    let n = history.len();
    let mut i: usize = 0;
    while i < n && i < MAX_RECENT_COMMANDS
        invariant
            n == history@.len(),
            i <= n,
            i <= MAX_RECENT_COMMANDS,
            out@.len() == i,
            forall|k: int| 0 <= k < i ==> #[trigger] out@[k]@ == ":"@ + history@[k]@,
        decreases n - i,
    {
        let mut c = owned(":");
        c.append(history[i].as_str());
        out.push(c);
        i = i + 1;
    }
    out
}

/// A changed file reported by version control, with absolute paths.
#[derive(Debug)]
pub enum FileChange {
    Untracked { path: String },
    Modified { path: String },
    Conflict { path: String },
    Deleted { path: String },
    Renamed { from_path: String, to_path: String },
}

/// The name of a kind of change.
pub open spec fn change_label(c: FileChange) -> Seq<char> {
    match c {
        FileChange::Untracked { .. } => "untracked"@,
        FileChange::Modified { .. } => "modified"@,
        FileChange::Conflict { .. } => "conflict"@,
        FileChange::Deleted { .. } => "deleted"@,
        FileChange::Renamed { .. } => "renamed"@,
    }
}

/// The path a change is listed under: the new path of a rename.
pub open spec fn change_path(c: FileChange) -> Seq<char> {
    match c {
        FileChange::Untracked { path } => path@,
        FileChange::Modified { path } => path@,
        FileChange::Conflict { path } => path@,
        FileChange::Deleted { path } => path@,
        FileChange::Renamed { to_path, .. } => to_path@,
    }
}

/// What `Path::strip_prefix` followed by `Path::display` gives for `path`
/// and `root`: the path relative to the root when the root's components
/// begin it, else the path itself.
pub uninterp spec fn path_relative_to(path: Seq<char>, root: Seq<char>) -> Seq<char>;

/// `path.strip_prefix(root).unwrap_or(path).display()` of `std::path::Path`,
/// as a string. Its result is named, not stated: it is `path` relative to
/// `root` when `root`'s components begin it, else `path`.
#[verifier::external_body]
fn relative_display(path: &str, root: &str) -> (r: String)
    ensures
        r@ == path_relative_to(path@, root@),
{
    let p = std::path::Path::new(path);
    p.strip_prefix(root).unwrap_or(p).display().to_string()
}

/// `f` lists the change `c` under the shown path `path` and, for a
/// rename, the shown former path `from_path`.
pub open spec fn listing_of(
    f: FileChangeSnapshot,
    c: FileChange,
    path: Seq<char>,
    from_path: Seq<char>,
) -> bool {
    &&& f.change@ == change_label(c)
    &&& f.path@ == path
    &&& if c is Renamed {
        opt_str_view(f.from_path) == Some(from_path)
    } else {
        f.from_path is None
    }
}

/// `f` lists the change `c` relative to `root`.
pub open spec fn file_change_of(f: FileChangeSnapshot, c: FileChange, root: Seq<char>) -> bool {
    listing_of(
        f,
        c,
        path_relative_to(change_path(c), root),
        match c {
            FileChange::Renamed { from_path, .. } => path_relative_to(from_path@, root),
            _ => Seq::empty(),
        },
    )
}

/// The listing of a change under the paths as shown; the former path is
/// kept for a rename only.
pub fn file_change_listing(change: &FileChange, path: String, from_path: String) -> (r:
    FileChangeSnapshot)
    ensures
        listing_of(r, *change, path@, from_path@),
{
    let (label, former): (&'static str, Option<String>) = match change {
        FileChange::Untracked { .. } => ("untracked", None),
        FileChange::Modified { .. } => ("modified", None),
        FileChange::Conflict { .. } => ("conflict", None),
        FileChange::Deleted { .. } => ("deleted", None),
        FileChange::Renamed { .. } => ("renamed", Some(from_path)),
    };
    FileChangeSnapshot { change: label, path, from_path: former }
}

/// The listing of one changed file, its paths relative to the workspace root.
pub fn file_change_snapshot(change: &FileChange, root: &str) -> (r: FileChangeSnapshot)
    ensures
        file_change_of(r, *change, root@),
{
    match change {
        FileChange::Untracked { path }
        | FileChange::Modified { path }
        | FileChange::Conflict { path }
        | FileChange::Deleted { path } => {
            file_change_listing(change, relative_display(path.as_str(), root), String::new())
        },
        FileChange::Renamed { from_path, to_path } => file_change_listing(
            change,
            relative_display(to_path.as_str(), root),
            relative_display(from_path.as_str(), root),
        ),
    }
}

/// `g` is the version-control part of the snapshot for the active file's
/// path, the head of its repository and the changed files.
pub open spec fn git_of(
    g: GitSnapshot,
    active_path: Option<String>,
    head: Option<String>,
    changes: Seq<FileChange>,
    root: Seq<char>,
) -> bool {
    &&& g.branch == if active_path is Some {
        head
    } else {
        None
    }
    &&& g.changed_files_truncated == (changes.len() > MAX_CHANGED_FILES)
    &&& g.changed_files@.len() == first_items(changes, MAX_CHANGED_FILES as nat).len()
    &&& forall|i: int|
        0 <= i < g.changed_files@.len() ==> file_change_of(
            #[trigger] g.changed_files@[i],
            changes[i],
            root,
        )
}

/// The version-control part of the snapshot: the branch of the active
/// file's repository, only when the file has a path, and at most
/// [`MAX_CHANGED_FILES`] changed files, with a flag when more were left out.
pub fn git_snapshot(
    active_path: &Option<String>,
    head: Option<String>,
    changes: &Vec<FileChange>,
    root: &str,
) -> (r: GitSnapshot)
    ensures
        git_of(r, *active_path, head, changes@, root@),
{
    let branch = match active_path {
        Some(_) => head,
        None => None,
    };
    let mut files: Vec<FileChangeSnapshot> = Vec::new();
    let n = changes.len();
    let mut i: usize = 0;
    while i < n && i < MAX_CHANGED_FILES
        invariant
            n == changes@.len(),
            i <= n,
            i <= MAX_CHANGED_FILES,
            files@.len() == i,
            forall|k: int|
                0 <= k < i ==> file_change_of(#[trigger] files@[k], changes@[k], root@),
        decreases n - i,
    {
        files.push(file_change_snapshot(&changes[i], root));
        i = i + 1;
    }
    GitSnapshot {
        branch,
        changed_files: files,
        changed_files_truncated: n > MAX_CHANGED_FILES,
    }
}

/// An open document: its id, and whether it has a path on disk.
#[derive(Clone, Copy, Debug, PartialEq, Eq)]
pub struct DocumentEntry {
    pub id: usize,
    pub has_path: bool,
}

/// A document can stand for the context when it is a file on disk and not
/// the transcript.
pub open spec fn describes_context(d: DocumentEntry, transcript: Option<usize>) -> bool {
    d.has_path && transcript != Some(d.id)
}

/// The first open document with the id.
pub open spec fn open_document(docs: Seq<DocumentEntry>, id: usize) -> Option<DocumentEntry>
    decreases docs.len(),
{
    if docs.len() == 0 {
        None
    } else if docs[0].id == id {
        Some(docs[0])
    } else {
        open_document(docs.drop_first(), id)
    }
}

/// The most recently accessed document, among the first `n` of the
/// history, that is open and can stand for the context.
pub open spec fn last_accessed_context(
    history: Seq<usize>,
    n: int,
    docs: Seq<DocumentEntry>,
    transcript: Option<usize>,
) -> Option<usize>
    decreases n,
{
    if n <= 0 {
        None
    } else {
        match open_document(docs, history[n - 1]) {
            Some(d) if describes_context(d, transcript) => Some(d.id),
            _ => last_accessed_context(history, n - 1, docs, transcript),
        }
    }
}

/// The first open document that can stand for the context.
pub open spec fn first_context(docs: Seq<DocumentEntry>, transcript: Option<usize>) -> Option<
    usize,
>
    decreases docs.len(),
{
    if docs.len() == 0 {
        None
    } else if describes_context(docs[0], transcript) {
        Some(docs[0].id)
    } else {
        first_context(docs.drop_first(), transcript)
    }
}

/// The document whose context is taken: the current one, unless it is the
/// transcript without a path; then the most recently accessed file, else the
/// first open file, else the current one after all.
pub open spec fn context_document_of(
    current: DocumentEntry,
    history: Seq<usize>,
    docs: Seq<DocumentEntry>,
    transcript: Option<usize>,
) -> usize {
    if !current.has_path && transcript == Some(current.id) {
        match last_accessed_context(history, history.len() as int, docs, transcript) {
            Some(id) => id,
            None => match first_context(docs, transcript) {
                Some(id) => id,
                None => current.id,
            },
        }
    } else {
        current.id
    }
}

fn find_open_document(docs: &Vec<DocumentEntry>, id: usize) -> (r: Option<DocumentEntry>)
    ensures
        r == open_document(docs@, id),
{
    let n = docs.len();
    let mut i: usize = 0;
    assert(docs@.skip(0) =~= docs@);
    while i < n
        invariant
            n == docs@.len(),
            i <= n,
            open_document(docs@, id) == open_document(docs@.skip(i as int), id),
        decreases n - i,
    {
        assert(docs@.skip(i as int).drop_first() =~= docs@.skip(i + 1));
        if docs[i].id == id {
            return Some(docs[i]);
        }
        i = i + 1;
    }
    None
}

fn find_first_context(docs: &Vec<DocumentEntry>, transcript: Option<usize>) -> (r: Option<usize>)
    ensures
        r == first_context(docs@, transcript),
{
    let n = docs.len();
    let mut i: usize = 0;
    assert(docs@.skip(0) =~= docs@);
    while i < n
        invariant
            n == docs@.len(),
            i <= n,
            first_context(docs@, transcript) == first_context(docs@.skip(i as int), transcript),
        decreases n - i,
    {
        assert(docs@.skip(i as int).drop_first() =~= docs@.skip(i + 1));
        let d = docs[i];
        let not_transcript = match transcript {
            Some(t) => t != d.id,
            None => true,
        };
        if d.has_path && not_transcript {
            return Some(d.id);
        }
        i = i + 1;
    }
    None
}

/// The document whose context a snapshot describes.
pub fn context_document(
    current: DocumentEntry,
    history: &Vec<usize>,
    docs: &Vec<DocumentEntry>,
    transcript: Option<usize>,
) -> (r: usize)
    ensures
        r == context_document_of(current, history@, docs@, transcript),
{
    let is_transcript = match transcript {
        Some(t) => t == current.id,
        None => false,
    };
    if current.has_path || !is_transcript {
        return current.id;
    }
    let mut k: usize = history.len();
    while k > 0
        invariant
            k <= history@.len(),
            !current.has_path,
            transcript == Some(current.id),
            last_accessed_context(history@, history@.len() as int, docs@, transcript)
                == last_accessed_context(history@, k as int, docs@, transcript),
        decreases k,
    {
        let found = find_open_document(docs, history[k - 1]);
        match found {
            Some(d) => {
                let not_transcript = match transcript {
                    Some(t) => t != d.id,
                    None => true,
                };
                if d.has_path && not_transcript {
                    assert(describes_context(d, transcript));
                    assert(last_accessed_context(history@, k as int, docs@, transcript) == Some(
                        d.id,
                    ));
                    return d.id;
                }
            },
            None => {},
        }
        k = k - 1;
    }
    match find_first_context(docs, transcript) {
        Some(id) => id,
        None => current.id,
    }
}

/// The view whose selection the snapshot reads: the focused view when the
/// document has a selection in it, else the first view that has one, else
/// the focused view.
pub fn snapshot_view(view: usize, selection_views: &Vec<usize>) -> (r: usize)
    ensures
        r == if selection_views@.contains(view) {
            view
        } else if selection_views@.len() > 0 {
            selection_views@[0]
        } else {
            view
        },
{
    let n = selection_views.len();
    let mut i: usize = 0;
    while i < n
        invariant
            n == selection_views@.len(),
            i <= n,
            forall|k: int| 0 <= k < i ==> selection_views@[k] != view,
        decreases n - i,
    {
        if selection_views[i] == view {
            return view;
        }
        i = i + 1;
    }
    if n > 0 {
        selection_views[0]
    } else {
        view
    }
}

/// What the editor reports for a snapshot of the document whose context is
/// taken: among it the selection's ranges and which of them is primary, and
/// the zero-based line and column of the primary range's head.
#[derive(Debug)]
pub struct EditorFacts {
    pub workspace_root: String,
    pub cwd: String,
    pub theme: String,
    pub mode: EditorMode,
    pub active_file: ActiveFileSnapshot,
    pub cursor_line: usize,
    pub cursor_column: usize,
    pub view_start_line: usize,
    pub view_height: u16,
    pub primary_index: usize,
    pub ranges: Vec<SelectionRange>,
    pub documents: Vec<BufferFacts>,
    pub transcript: Option<usize>,
    pub diagnostics: Vec<DiagnosticSnapshot>,
    pub lsp_servers: Vec<String>,
    pub head: Option<String>,
    pub changed_files: Vec<FileChange>,
    pub command_history: Vec<String>,
}

/// `s` is the snapshot of `f` under the configuration `c`.
pub open spec fn snapshot_of(s: EditorSnapshot, f: EditorFacts, c: AgentConfig) -> bool {
    &&& s.workspace_root == f.workspace_root
    &&& s.cwd == f.cwd
    &&& s.theme@ == if c.include_theme {
        f.theme@
    } else {
        Seq::empty()
    }
    &&& s.mode@ == mode_name(f.mode)
    &&& s.active_file == f.active_file
    &&& s.cursor == (CursorSnapshot {
        line: f.cursor_line,
        column: f.cursor_column,
        char: f.ranges@[f.primary_index as int].head,
    })
    &&& visible_ranges_of(
        s.visible_ranges@,
        c.include_visible_buffer,
        f.active_file.display_name@,
        f.view_start_line,
        f.view_height,
    )
    &&& selections_of(
        s.selections@,
        f.ranges@,
        f.primary_index as int,
        f.mode == EditorMode::Select,
    )
    &&& buffers_of(
        s.open_buffers@,
        f.documents@,
        c.include_visible_buffer,
        c.include_diagnostics,
        f.transcript,
    )
    &&& s.diagnostics@ == if c.include_diagnostics {
        first_items(f.diagnostics@, MAX_DIAGNOSTICS as nat)
    } else {
        Seq::empty()
    }
    &&& s.lsp_servers == f.lsp_servers
    &&& git_of(s.git, f.active_file.path, f.head, f.changed_files@, f.workspace_root@)
    &&& commands_of(s.recent_commands@, f.command_history@, c.include_command_history)
}

/// The editor snapshot: what the editor reports, with the parts that the
/// agent configuration leaves out emptied and the lists cut to their limits.
pub fn editor_snapshot(facts: EditorFacts, config: &AgentConfig) -> (s: EditorSnapshot)
    requires
        facts.primary_index < facts.ranges@.len(),
    ensures
        snapshot_of(s, facts, *config),
{
    let visible_ranges = visible_ranges_snapshot(
        config.include_visible_buffer,
        facts.active_file.display_name.as_str(),
        facts.view_start_line,
        facts.view_height,
    );
    let select_mode = match facts.mode {
        EditorMode::Select => true,
        _ => false,
    };
    let selections = selections_snapshot(&facts.ranges, facts.primary_index, select_mode);
    let cursor = CursorSnapshot {
        line: facts.cursor_line,
        column: facts.cursor_column,
        char: facts.ranges[facts.primary_index].head,
    };
    let open_buffers = open_buffers_snapshot(
        &facts.documents,
        config.include_visible_buffer,
        config.include_diagnostics,
        facts.transcript,
    );
    let git = git_snapshot(
        &facts.active_file.path,
        facts.head,
        &facts.changed_files,
        facts.workspace_root.as_str(),
    );
    let recent_commands = recent_commands_snapshot(
        &facts.command_history,
        config.include_command_history,
    );
    let diagnostics = diagnostics_snapshot(facts.diagnostics, config.include_diagnostics);
    let theme = if config.include_theme {
        facts.theme
    } else {
        String::new()
    };
    EditorSnapshot {
        workspace_root: facts.workspace_root,
        cwd: facts.cwd,
        theme,
        mode: owned(facts.mode.name()),
        active_file: facts.active_file,
        cursor,
        visible_ranges,
        selections,
        open_buffers,
        diagnostics,
        lsp_servers: facts.lsp_servers,
        git,
        recent_commands,
    }
}

/// Law: a quoted selection never holds more than
/// [`MAX_SELECTION_TEXT_CHARS`] characters, and it is flagged truncated
/// exactly when its range is longer.
pub proof fn law_quoted_selection_is_bounded(
    s: SelectionSnapshot,
    index: int,
    primary_index: int,
    select_mode: bool,
    r: SelectionRange,
)
    requires
        selection_of(s, index, primary_index, select_mode, r),
    ensures
        s.text@.len() <= MAX_SELECTION_TEXT_CHARS,
        s.truncated <==> range_len(r) > MAX_SELECTION_TEXT_CHARS,
        s.empty ==> s.text@.len() == 0,
{
}

/// Law: the snapshot keeps to the agent configuration and to its limits:
/// what the configuration leaves out is empty, and the lists of commands,
/// changed files and diagnostics never exceed their maxima.
pub proof fn law_snapshot_respects_configuration(s: EditorSnapshot, f: EditorFacts, c: AgentConfig)
    requires
        snapshot_of(s, f, c),
    ensures
        !c.include_theme ==> s.theme@.len() == 0,
        !c.include_visible_buffer ==> s.visible_ranges@.len() == 0 && s.open_buffers@.len() == 0,
        !c.include_diagnostics ==> s.diagnostics@.len() == 0 && forall|i: int|
            0 <= i < s.open_buffers@.len() ==> #[trigger] s.open_buffers@[i].diagnostics == 0,
        !c.include_command_history ==> s.recent_commands@.len() == 0,
        s.recent_commands@.len() <= MAX_RECENT_COMMANDS,
        s.git.changed_files@.len() <= MAX_CHANGED_FILES,
        s.diagnostics@.len() <= MAX_DIAGNOSTICS,
{
    if !c.include_diagnostics && c.include_visible_buffer {
        assert forall|i: int| 0 <= i < s.open_buffers@.len() implies #[trigger] s.open_buffers@[
            i
        ].diagnostics == 0 by {
            assert(buffer_of(s.open_buffers@[i], f.documents@[i], c.include_diagnostics, f.transcript));
        }
    }
}

/// Law: a snapshot has exactly one primary selection, the one at the
/// primary index, and the cursor sits at its head.
pub proof fn law_one_primary_selection(s: EditorSnapshot, f: EditorFacts, c: AgentConfig)
    requires
        snapshot_of(s, f, c),
        f.primary_index < f.ranges@.len(),
    ensures
        s.selections@[f.primary_index as int].primary,
        forall|i: int|
            0 <= i < s.selections@.len() && #[trigger] s.selections@[i].primary ==> i
                == f.primary_index,
        s.cursor.char == s.selections@[f.primary_index as int].head,
{
    assert(selection_of(
        s.selections@[f.primary_index as int],
        f.primary_index as int,
        f.primary_index as int,
        f.mode == EditorMode::Select,
        f.ranges@[f.primary_index as int],
    ));
    assert forall|i: int|
        0 <= i < s.selections@.len() && #[trigger] s.selections@[i].primary implies i
            == f.primary_index by {
        assert(selection_of(
            s.selections@[i],
            i,
            f.primary_index as int,
            f.mode == EditorMode::Select,
            f.ranges@[i],
        ));
    }
}

/// Law: an id finds the first open document with that id, and nothing only
/// when no open document has it.
pub proof fn law_id_finds_its_first_document(docs: Seq<DocumentEntry>, id: usize)
    ensures
        open_document(docs, id) matches Some(d) ==> exists|k: int|
            0 <= k < docs.len() && docs[k] == d && d.id == id && forall|j: int|
                0 <= j < k ==> #[trigger] docs[j].id != id,
        open_document(docs, id) is None ==> forall|k: int|
            0 <= k < docs.len() ==> #[trigger] docs[k].id != id,
    decreases docs.len(),
{
    if docs.len() > 0 {
        let rest = docs.drop_first();
        law_id_finds_its_first_document(rest, id);
        if docs[0].id != id {
            if let Some(d) = open_document(docs, id) {
                let k = choose|k: int|
                    0 <= k < rest.len() && rest[k] == d && d.id == id && forall|j: int|
                        0 <= j < k ==> #[trigger] rest[j].id != id;
                assert(docs[k + 1] == rest[k]);
                assert forall|j: int| 0 <= j < k + 1 implies #[trigger] docs[j].id != id by {
                    if j > 0 {
                        assert(docs[j] == rest[j - 1]);
                    }
                }
            } else {
                assert forall|k: int| 0 <= k < docs.len() implies #[trigger] docs[k].id != id by {
                    if k > 0 {
                        assert(docs[k] == rest[k - 1]);
                    }
                }
            }
        }
    }
}

/// Law: the fallback document is the first open one that can stand for the
/// context, and there is none only when no open document can.
pub proof fn law_first_document_that_describes_the_context(
    docs: Seq<DocumentEntry>,
    transcript: Option<usize>,
)
    ensures
        first_context(docs, transcript) matches Some(id) ==> exists|k: int|
            0 <= k < docs.len() && docs[k].id == id && describes_context(docs[k], transcript)
                && forall|j: int|
                0 <= j < k ==> !#[trigger] describes_context(docs[j], transcript),
        first_context(docs, transcript) is None ==> forall|k: int|
            0 <= k < docs.len() ==> !#[trigger] describes_context(docs[k], transcript),
    decreases docs.len(),
{
    if docs.len() > 0 {
        let rest = docs.drop_first();
        law_first_document_that_describes_the_context(rest, transcript);
        if !describes_context(docs[0], transcript) {
            if let Some(id) = first_context(docs, transcript) {
                let k = choose|k: int|
                    0 <= k < rest.len() && rest[k].id == id && describes_context(rest[k], transcript)
                        && forall|j: int|
                        0 <= j < k ==> !#[trigger] describes_context(rest[j], transcript);
                assert(docs[k + 1] == rest[k]);
                assert forall|j: int| 0 <= j < k + 1 implies !#[trigger] describes_context(
                    docs[j],
                    transcript,
                ) by {
                    if j > 0 {
                        assert(docs[j] == rest[j - 1]);
                    }
                }
            } else {
                assert forall|k: int| 0 <= k < docs.len() implies !#[trigger] describes_context(
                    docs[k],
                    transcript,
                ) by {
                    if k > 0 {
                        assert(docs[k] == rest[k - 1]);
                    }
                }
            }
        }
    }
}

/// The history entry names an open document that can stand for the context.
pub open spec fn entry_describes(
    docs: Seq<DocumentEntry>,
    entry: usize,
    transcript: Option<usize>,
) -> bool {
    match open_document(docs, entry) {
        Some(e) => describes_context(e, transcript),
        None => false,
    }
}

/// Law: the document taken from the history is the most recently accessed
/// one, among the first `n` entries, that is open and can stand for the
/// context: it is the document of some entry `k` that qualifies, and no
/// later entry below `n` qualifies; nothing is taken only when no entry does.
pub proof fn law_most_recent_document_is_taken(
    history: Seq<usize>,
    n: int,
    docs: Seq<DocumentEntry>,
    transcript: Option<usize>,
)
    requires
        n <= history.len(),
    ensures
        last_accessed_context(history, n, docs, transcript) matches Some(id) ==> exists|k: int|
            0 <= k < n && entry_describes(docs, history[k], transcript) && open_document(
                docs,
                history[k],
            )->0.id == id && forall|j: int|
                k < j < n ==> !#[trigger] entry_describes(docs, history[j], transcript),
        last_accessed_context(history, n, docs, transcript) is None ==> forall|k: int|
            0 <= k < n ==> !#[trigger] entry_describes(docs, history[k], transcript),
    decreases n,
{
    if n > 0 {
        law_most_recent_document_is_taken(history, n - 1, docs, transcript);
        if !entry_describes(docs, history[n - 1], transcript) {
            if let Some(id) = last_accessed_context(history, n, docs, transcript) {
                let k = choose|k: int|
                    0 <= k < n - 1 && entry_describes(docs, history[k], transcript) && open_document(
                        docs,
                        history[k],
                    )->0.id == id && forall|j: int|
                        k < j < n - 1 ==> !#[trigger] entry_describes(docs, history[j], transcript);
                assert(0 <= k < n && entry_describes(docs, history[k], transcript) && open_document(
                    docs,
                    history[k],
                )->0.id == id);
            }
        }
    }
}

} // verus!
