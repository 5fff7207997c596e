use doomhelix_agent::context::{
    prompt_with_context_summary_snapshot, prompt_with_editor_context_snapshot,
    prompt_with_primary_selection_snapshot, quoted_positions_check, ActiveFileSnapshot, CursorSnapshot, EditorSnapshot,
    GitSnapshot, PositionSnapshot, SelectionSnapshot,
};

fn snapshot_with_selection(selection: SelectionSnapshot) -> EditorSnapshot {
    EditorSnapshot {
        workspace_root: "/repo".to_string(),
        cwd: "/repo".to_string(),
        theme: "default".to_string(),
        mode: "normal".to_string(),
        active_file: ActiveFileSnapshot {
            id: "1".to_string(),
            display_name: "main.go".to_string(),
            path: Some("/repo/main.go".to_string()),
            language: Some("go".to_string()),
            language_id: Some("go".to_string()),
            modified: false,
            line_ending: "LF".to_string(),
            encoding: "UTF-8".to_string(),
        },
        cursor: CursorSnapshot {
            line: 0,
            column: 0,
            char: 0,
        },
        visible_ranges: Vec::new(),
        selections: vec![selection],
        open_buffers: Vec::new(),
        diagnostics: Vec::new(),
        lsp_servers: Vec::new(),
        git: GitSnapshot {
            branch: None,
            changed_files: Vec::new(),
            changed_files_truncated: false,
        },
        recent_commands: Vec::new(),
    }
}

fn selection_snapshot(empty: bool, text: &str) -> SelectionSnapshot {
    SelectionSnapshot {
        index: 0,
        primary: true,
        empty,
        anchor: 0,
        head: if empty { 0 } else { text.chars().count() },
        start: PositionSnapshot { line: 0, column: 0 },
        end: PositionSnapshot {
            line: 0,
            column: text.chars().count(),
        },
        text: text.to_string(),
        truncated: false,
    }
}

#[test]
fn prompt_ignores_cursor_only_selection() {
    let snapshot = snapshot_with_selection(selection_snapshot(true, ""));
    assert_eq!(
        prompt_with_primary_selection_snapshot(&snapshot, "Explain this."),
        "Explain this."
    );
}

#[test]
fn prompt_includes_extended_selection() {
    let snapshot = snapshot_with_selection(selection_snapshot(false, "fmt.Println(x)"));
    let prompt = prompt_with_primary_selection_snapshot(&snapshot, "Explain this.");
    assert!(prompt.contains("Selected text from /repo/main.go:1:1-1:15"));
    assert!(prompt.contains("```go\nfmt.Println(x)\n```"));
}

#[test]
fn prompt_includes_active_file_context_without_selection() {
    let snapshot = snapshot_with_selection(selection_snapshot(true, ""));
    let prompt = prompt_with_editor_context_snapshot(&snapshot, "Review this file.");

    assert!(prompt.contains("Editor context:"));
    assert!(prompt.contains("- Workspace root: /repo"));
    assert!(prompt.contains("- Active file: /repo/main.go"));
    assert!(prompt.contains("- Language: go"));
    assert!(prompt.contains("- Cursor: 1:1"));
}

#[test]
fn prompt_includes_context_and_extended_selection() {
    let snapshot = snapshot_with_selection(selection_snapshot(false, "fmt.Println(x)"));
    let prompt = prompt_with_editor_context_snapshot(&snapshot, "Explain this.");

    assert!(prompt.contains("- Active file: /repo/main.go"));
    assert!(prompt.contains("- Non-empty selections: 1"));
    assert!(prompt.contains("Selected text from /repo/main.go:1:1-1:15"));
}

#[test]
fn selection_quote_is_exact() {
    let snapshot = snapshot_with_selection(selection_snapshot(false, "fmt.Println(x)"));
    assert_eq!(
        prompt_with_primary_selection_snapshot(&snapshot, "Explain this."),
        "Explain this.\n\nSelected text from /repo/main.go:1:1-1:15:\n```go\nfmt.Println(x)\n```"
    );
}

#[test]
fn whitespace_only_selection_is_not_quoted() {
    let snapshot = snapshot_with_selection(selection_snapshot(false, "  \n\t"));
    assert_eq!(
        prompt_with_primary_selection_snapshot(&snapshot, "Explain this."),
        "Explain this."
    );
}

#[test]
fn truncated_selection_gets_a_note() {
    let mut selection = selection_snapshot(false, "abc");
    selection.truncated = true;
    let snapshot = snapshot_with_selection(selection);
    let prompt = prompt_with_primary_selection_snapshot(&snapshot, "Q");
    assert!(prompt.ends_with(
        "```go\nabc\n```\n\nNote: the selected text was truncated in the editor context."
    ));
}

#[test]
fn context_summary_is_exact() {
    let mut snapshot = snapshot_with_selection(selection_snapshot(true, ""));
    snapshot.cursor.line = 9;
    snapshot.cursor.column = 3;
    snapshot.active_file.language_id = None;
    snapshot.active_file.language = None;
    snapshot.active_file.path = None;
    assert_eq!(
        prompt_with_context_summary_snapshot(&snapshot, "Go"),
        "Go\n\nEditor context:\n- Workspace root: /repo\n- Active file: main.go\n- Language: unknown\n- Cursor: 10:4\n- Non-empty selections: 0\n- Diagnostics in active file: 0"
    );
}

#[test]
fn quoted_positions_must_leave_room_for_one() {
    let snapshot = snapshot_with_selection(selection_snapshot(false, "x"));
    assert!(quoted_positions_check(&snapshot));
    let mut far = selection_snapshot(false, "x");
    far.end.column = usize::MAX;
    assert!(!quoted_positions_check(&snapshot_with_selection(far)));
    let mut unquoted = selection_snapshot(true, "");
    unquoted.end.column = usize::MAX;
    assert!(quoted_positions_check(&snapshot_with_selection(unquoted)));
}
