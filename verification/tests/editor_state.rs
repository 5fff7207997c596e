use doomhelix_agent::config::{insert_server, AgentConfig, AgentServerConfig, LaunchConfigError};
use doomhelix_agent::context::{
    ActiveFileSnapshot, DiagnosticSnapshot, PositionSnapshot,
};
use doomhelix_agent::runtime::{
    cancel_all, cancel_generation, clear_busy_agent, clear_latest_patch, is_cancelled,
    latest_patch, set_busy_agent, set_latest_patch, set_transcript_doc_id, status,
    transcript_doc_id, update_busy_agent_request, update_busy_agent_session, AgentBusyStatus,
    AgentPatchProposal, AgentRuntimeStatus, DocumentId, RunningAgentState,
};
use doomhelix_agent::layers::{
    agent_layers, agent_section, config_layers, editor_source, key_layers, theme_layer,
    AgentSection, EditorSource, Layer, LayerError, LayerOutcome, LayerPlan,
};
use doomhelix_agent::session::{new_session, session_id_at};
use doomhelix_agent::snapshot::{
    context_document, diagnostics_snapshot, editor_snapshot, file_change_listing,
    file_change_snapshot, git_snapshot,
    open_buffers_snapshot, recent_commands_snapshot, selection_snapshot, snapshot_view,
    take_chars, visible_ranges_snapshot, BufferFacts, DocumentEntry, EditorFacts, EditorMode,
    FileChange, SelectionRange,
};
use doomhelix_agent::transcript::{
    append_transcript_turn, append_transcript_turn_response, cancel_pending_transcript_turns,
    clear_transcript_turns, complete_transcript_turn, fail_transcript_turn, render_transcript,
    update_transcript_turn_status, AgentTranscriptKind, AgentTranscriptStatus,
};

fn local_config(default_agent: &str, command: &str, args: &[&str]) -> AgentConfig {
    let mut config = AgentConfig::default();
    config.default_agent = default_agent.to_string();
    config.servers = Vec::new();
    insert_server(
        &mut config.servers,
        "local".to_string(),
        AgentServerConfig {
            command: command.to_string(),
            args: args.iter().map(|a| a.to_string()).collect(),
        },
    );
    config
}

#[test]
fn resolves_launch_config() {
    let config = local_config("local", "agent", &["--acp"]);

    let launch = config.launch_config().unwrap();
    assert_eq!(launch.name, "local");
    assert_eq!(launch.command, "agent");
    assert_eq!(launch.args, ["--acp"]);
}

#[test]
fn rejects_missing_default_agent() {
    let config = local_config("missing", "agent", &[]);

    assert!(config.launch_config().is_err());
}

#[test]
fn launch_errors_say_why() {
    let missing = local_config("missing", "agent", &[]).launch_config().unwrap_err();
    assert_eq!(missing, LaunchConfigError::NotConfigured("missing".to_string()));
    assert_eq!(missing.message(), "agent server 'missing' is not configured");
    let empty = local_config("local", "  ", &[]).launch_config().unwrap_err();
    assert_eq!(empty, LaunchConfigError::EmptyCommand("local".to_string()));
    assert_eq!(empty.message(), "agent server 'local' has an empty command");
}

#[test]
fn default_config_launches_codex_acp() {
    let config = AgentConfig::default();
    assert!(!config.enable);
    assert!(config.auto_context_on_open);
    assert!(config.include_theme && config.include_command_history);
    assert!(config.include_visible_buffer && config.include_diagnostics);
    assert!(config.require_approval_for_shell);
    let launch = config.launch_config().unwrap();
    assert_eq!(launch.name, "codex");
    assert_eq!(launch.command, "codex");
    assert_eq!(launch.args, ["acp"]);
}

#[test]
fn inserting_a_server_replaces_one_of_the_same_name() {
    let mut config = AgentConfig::default();
    insert_server(
        &mut config.servers,
        "codex".to_string(),
        AgentServerConfig { command: "codex-acp".to_string(), args: Vec::new() },
    );
    insert_server(
        &mut config.servers,
        "gemini".to_string(),
        AgentServerConfig { command: "gemini-acp".to_string(), args: Vec::new() },
    );
    assert_eq!(config.servers.len(), 2);
    assert_eq!(config.launch_config().unwrap().command, "codex-acp");
    config.default_agent = "gemini".to_string();
    assert_eq!(config.launch_config().unwrap().command, "gemini-acp");
}

#[test]
fn runtime_status_and_busy_marker() {
    let mut busy = None;
    assert_eq!(status(None, &busy), AgentRuntimeStatus::Stopped);
    set_busy_agent(
        &mut busy,
        AgentBusyStatus { name: "codex".to_string(), session_id: None, request_id: None },
    );
    update_busy_agent_session(&mut busy, Some("s".to_string()));
    update_busy_agent_request(&mut busy, 7);
    assert_eq!(
        status(None, &busy),
        AgentRuntimeStatus::Busy(AgentBusyStatus {
            name: "codex".to_string(),
            session_id: Some("s".to_string()),
            request_id: Some(7),
        })
    );
    let running = RunningAgentState::started("codex".to_string());
    assert_eq!(
        status(Some(&running), &busy),
        AgentRuntimeStatus::Running {
            name: "codex".to_string(),
            session_id: None,
            next_request_id: 3,
        }
    );
    clear_busy_agent(&mut busy);
    assert!(busy.is_none());
    update_busy_agent_request(&mut busy, 8);
    assert!(busy.is_none());
}

#[test]
fn cancelling_marks_earlier_work_cancelled() {
    let mut generation = 0u64;
    let started = cancel_generation(&generation);
    assert!(!is_cancelled(generation, started));
    assert_eq!(cancel_all(&mut generation), 1);
    assert!(is_cancelled(generation, started));
    assert!(!is_cancelled(generation, cancel_generation(&generation)));
}

#[test]
fn patch_and_transcript_slots_read_back() {
    let mut slot = None;
    assert_eq!(latest_patch(&slot), None);
    let patch = AgentPatchProposal {
        patch: "diff".to_string(),
        cwd: "/repo".to_string(),
        source_path: None,
        request_id: 4,
    };
    set_latest_patch(&mut slot, patch);
    assert_eq!(latest_patch(&slot).unwrap().patch, "diff");
    clear_latest_patch(&mut slot);
    assert_eq!(latest_patch(&slot), None);
    let mut doc = None;
    set_transcript_doc_id(&mut doc, DocumentId(3));
    assert_eq!(transcript_doc_id(&doc), Some(DocumentId(3)));
}

#[test]
fn transcript_lifecycle_and_rendering() {
    let mut turns = Vec::new();
    append_transcript_turn(&mut turns, 1, AgentTranscriptKind::Chat, "  hello  ".to_string());
    assert_eq!(
        render_transcript(&turns),
        "**You:**\n\nhello\n\n**Codex:**\n\nWorking..."
    );
    append_transcript_turn_response(&mut turns, 1, "part".to_string());
    update_transcript_turn_status(&mut turns, 1, "Thinking".to_string());
    assert_eq!(
        render_transcript(&turns),
        "**You:**\n\nhello\n\n**Codex:**\n\npart\n\nThinking"
    );
    complete_transcript_turn(&mut turns, 1, "answer".to_string());
    append_transcript_turn(&mut turns, 2, AgentTranscriptKind::Fix, "fix".to_string());
    append_transcript_turn(&mut turns, 3, AgentTranscriptKind::Edit, "edit".to_string());
    fail_transcript_turn(&mut turns, 2, "error: x".to_string());
    assert_eq!(cancel_pending_transcript_turns(&mut turns), 1);
    assert_eq!(cancel_pending_transcript_turns(&mut turns), 0);
    assert_eq!(turns[0].status, AgentTranscriptStatus::Complete);
    assert_eq!(turns[1].status, AgentTranscriptStatus::Failed);
    assert_eq!(turns[2].status, AgentTranscriptStatus::Cancelled);
    assert_eq!(
        render_transcript(&turns),
        "**You:**\n\nhello\n\n**Codex:**\n\nanswer\n\n---\n\n**You:**\n\nfix\n\n**Codex:**\n\nerror: x\n\n---\n\n**You:**\n\nedit\n\n**Codex:**\n\nCancelled"
    );
    assert_eq!(AgentTranscriptKind::Refactor.label(), "refactor");
    clear_transcript_turns(&mut turns);
    assert_eq!(render_transcript(&turns), "");
}

#[test]
fn unknown_turn_ids_change_nothing() {
    let mut turns = Vec::new();
    append_transcript_turn(&mut turns, 1, AgentTranscriptKind::Explain, "q".to_string());
    complete_transcript_turn(&mut turns, 9, "nope".to_string());
    append_transcript_turn_response(&mut turns, 1, String::new());
    assert_eq!(turns[0].status, AgentTranscriptStatus::Pending);
    assert_eq!(turns[0].response, None);
}

#[test]
fn session_records() {
    assert_eq!(session_id_at(42), "agent-42");
    let session = new_session(sample_snapshot_facts_snapshot());
    assert!(session.id.starts_with("agent-"));
    assert_eq!(session.schema_version, 1);
    assert_eq!(session.kind, "session");
    assert_eq!(session.messages.len(), 1);
}

fn range(anchor: usize, head: usize, text: &str) -> SelectionRange {
    SelectionRange {
        anchor,
        head,
        start: PositionSnapshot { line: 0, column: anchor.min(head) },
        end: PositionSnapshot { line: 0, column: anchor.max(head) },
        text: text.to_string(),
    }
}

#[test]
fn selections_are_quoted_within_limits() {
    assert_eq!(take_chars("héllo", 2), "hé");
    assert_eq!(take_chars("hi", 5), "hi");
    let cursor = selection_snapshot(0, 0, false, &range(3, 4, "x"));
    assert!(cursor.empty);
    assert_eq!(cursor.text, "");
    assert!(cursor.primary);
    let one_char_in_select_mode = selection_snapshot(1, 0, true, &range(3, 4, "x"));
    assert!(!one_char_in_select_mode.empty);
    assert_eq!(one_char_in_select_mode.text, "x");
    assert!(!one_char_in_select_mode.primary);
    let long: String = "a".repeat(2500);
    let big = selection_snapshot(0, 0, false, &range(2500, 0, &long));
    assert_eq!(big.text.chars().count(), 2000);
    assert!(big.truncated);
    assert_eq!(big.anchor, 2500);
    let exact = selection_snapshot(0, 0, false, &range(0, 2000, &"b".repeat(2000)));
    assert!(!exact.truncated);
}

#[test]
fn snapshot_lists_follow_the_configuration() {
    let v = visible_ranges_snapshot(true, "main.go", usize::MAX - 1, 10);
    assert_eq!(v.len(), 1);
    assert_eq!(v[0].end_line, usize::MAX);
    assert_eq!(visible_ranges_snapshot(true, "main.go", 5, 40)[0].end_line, 45);
    assert!(visible_ranges_snapshot(false, "main.go", 0, 1).is_empty());

    let docs = vec![
        BufferFacts {
            id: 1,
            display_name: "a.rs".to_string(),
            path: Some("/r/a.rs".to_string()),
            language: Some("rust".to_string()),
            modified: true,
            diagnostics: 4,
        },
        BufferFacts {
            id: 2,
            display_name: "[transcript]".to_string(),
            path: None,
            language: None,
            modified: false,
            diagnostics: 0,
        },
    ];
    let buffers = open_buffers_snapshot(&docs, true, false, Some(2));
    assert_eq!(buffers[0].id, "1");
    assert_eq!(buffers[0].diagnostics, 0);
    assert!(!buffers[0].agent_transcript);
    assert!(buffers[1].agent_transcript);
    assert_eq!(open_buffers_snapshot(&docs, true, true, None)[0].diagnostics, 4);
    assert!(open_buffers_snapshot(&docs, false, true, None).is_empty());

    let history: Vec<String> = (0..30).map(|i| format!("w{i}")).collect();
    let commands = recent_commands_snapshot(&history, true);
    assert_eq!(commands.len(), 20);
    assert_eq!(commands[0], ":w0");
    assert!(recent_commands_snapshot(&history, false).is_empty());

    let diagnostics: Vec<DiagnosticSnapshot> = (0..60)
        .map(|line| DiagnosticSnapshot {
            line,
            severity: Some("Error".to_string()),
            source: None,
            message: "bad".to_string(),
        })
        .collect();
    assert_eq!(diagnostics_snapshot(diagnostics, true).len(), 50);
    assert!(diagnostics_snapshot(Vec::new(), false).is_empty());
}

#[test]
fn changed_files_are_listed_relative_to_the_root() {
    let renamed = file_change_snapshot(
        &FileChange::Renamed {
            from_path: "/repo/old.rs".to_string(),
            to_path: "/repo/src/new.rs".to_string(),
        },
        "/repo",
    );
    assert_eq!(renamed.change, "renamed");
    assert_eq!(renamed.path, "src/new.rs");
    assert_eq!(renamed.from_path.as_deref(), Some("old.rs"));
    let outside = file_change_snapshot(&FileChange::Deleted { path: "/elsewhere/x".to_string() }, "/repo");
    assert_eq!(outside.change, "deleted");
    assert_eq!(outside.path, "/elsewhere/x");
    assert_eq!(outside.from_path, None);

    let changes: Vec<FileChange> = (0..101)
        .map(|i| FileChange::Modified { path: format!("/repo/f{i}") })
        .collect();
    let git = git_snapshot(&Some("/repo/a".to_string()), Some("main".to_string()), &changes, "/repo");
    assert_eq!(git.branch.as_deref(), Some("main"));
    assert_eq!(git.changed_files.len(), 100);
    assert!(git.changed_files_truncated);
    assert_eq!(git.changed_files[0].path, "f0");
    let git = git_snapshot(&None, Some("main".to_string()), &Vec::new(), "/repo");
    assert_eq!(git.branch, None);
    assert!(!git.changed_files_truncated);
}

#[test]
fn context_document_skips_the_transcript() {
    let transcript = DocumentEntry { id: 5, has_path: false };
    let docs = vec![
        DocumentEntry { id: 1, has_path: true },
        DocumentEntry { id: 2, has_path: true },
        DocumentEntry { id: 5, has_path: false },
    ];
    assert_eq!(context_document(transcript, &vec![1, 2, 5], &docs, Some(5)), 2);
    assert_eq!(context_document(transcript, &vec![9, 5], &docs, Some(5)), 1);
    assert_eq!(context_document(transcript, &vec![], &vec![transcript], Some(5)), 5);
    let file = DocumentEntry { id: 1, has_path: true };
    assert_eq!(context_document(file, &vec![2], &docs, Some(5)), 1);
    assert_eq!(snapshot_view(3, &vec![1, 3]), 3);
    assert_eq!(snapshot_view(3, &vec![7, 1]), 7);
    assert_eq!(snapshot_view(3, &vec![]), 3);
}

fn sample_facts() -> EditorFacts {
    EditorFacts {
        workspace_root: "/repo".to_string(),
        cwd: "/repo".to_string(),
        theme: "amberwood".to_string(),
        mode: EditorMode::Select,
        active_file: ActiveFileSnapshot {
            id: "1".to_string(),
            display_name: "main.go".to_string(),
            path: Some("/repo/main.go".to_string()),
            language: Some("go".to_string()),
            language_id: Some("go".to_string()),
            modified: false,
            line_ending: "LF".to_string(),
            encoding: "UTF-8".to_string(),
        },
        cursor_line: 0,
        cursor_column: 1,
        view_start_line: 0,
        view_height: 30,
        primary_index: 0,
        ranges: vec![range(0, 1, "f")],
        documents: Vec::new(),
        transcript: None,
        diagnostics: Vec::new(),
        lsp_servers: vec!["gopls".to_string()],
        head: Some("main".to_string()),
        changed_files: vec![FileChange::Untracked { path: "/repo/new.go".to_string() }],
        command_history: vec!["w".to_string()],
    }
}

fn sample_snapshot_facts_snapshot() -> doomhelix_agent::context::EditorSnapshot {
    editor_snapshot(sample_facts(), &AgentConfig::default())
}

#[test]
fn editor_snapshot_assembles_the_parts() {
    let s = sample_snapshot_facts_snapshot();
    assert_eq!(s.mode, "select");
    assert_eq!(s.theme, "amberwood");
    assert_eq!(s.visible_ranges[0].end_line, 30);
    assert_eq!(s.selections[0].text, "f");
    assert!(!s.selections[0].empty);
    assert_eq!(s.git.branch.as_deref(), Some("main"));
    assert_eq!(s.git.changed_files[0].path, "new.go");
    assert_eq!(s.recent_commands, vec![":w"]);
    assert_eq!(s.lsp_servers, vec!["gopls"]);
    assert_eq!((s.cursor.line, s.cursor.column, s.cursor.char), (0, 1, 1));

    let mut quiet = AgentConfig::default();
    quiet.include_theme = false;
    quiet.include_visible_buffer = false;
    quiet.include_command_history = false;
    quiet.include_diagnostics = false;
    let mut facts = sample_facts();
    facts.mode = EditorMode::Normal;
    let s = editor_snapshot(facts, &quiet);
    assert_eq!(s.theme, "");
    assert_eq!(s.mode, "normal");
    assert!(s.visible_ranges.is_empty());
    assert!(s.recent_commands.is_empty());
    assert!(s.selections[0].empty);
}

#[test]
fn change_listings_keep_the_former_path_of_renames_only() {
    let listing = file_change_listing(
        &FileChange::Conflict { path: "/r/a".to_string() },
        "a".to_string(),
        "ignored".to_string(),
    );
    assert_eq!(listing.change, "conflict");
    assert_eq!(listing.path, "a");
    assert_eq!(listing.from_path, None);
    let listing = file_change_listing(
        &FileChange::Renamed { from_path: "/r/b".to_string(), to_path: "/r/c".to_string() },
        "c".to_string(),
        "b".to_string(),
    );
    assert_eq!(listing.from_path.as_deref(), Some("b"));
}

#[test]
fn handshake_ids_come_before_the_first_request_of_a_started_agent() {
    let handshake = doomhelix_agent::acp::session_handshake(
        new_session(sample_snapshot_facts_snapshot()),
        "1.2.3",
    );
    assert_eq!(handshake.len(), 2);
    assert_eq!((handshake[0].id, handshake[0].method), (1, "initialize"));
    assert_eq!((handshake[1].id, handshake[1].method), (2, "session/new"));
    assert_eq!(handshake[1].params.get_str("cwd"), Some("/repo"));
    assert_eq!(
        handshake[0]
            .params
            .get("clientInfo")
            .and_then(|info| info.get_str("version")),
        Some("1.2.3")
    );
    let init = &handshake[0].params;
    assert_eq!(init.get("protocolVersion"), Some(&doomhelix_agent::json::Json::Number(
        doomhelix_agent::json::JsonNumber::PosInt(1),
    )));
    let capabilities = init.get("clientCapabilities").unwrap();
    assert_eq!(capabilities.get("terminal"), Some(&doomhelix_agent::json::Json::Bool(false)));
    let fs = capabilities.get("fs").unwrap();
    assert_eq!(fs.get("writeTextFile"), Some(&doomhelix_agent::json::Json::Bool(false)));
    assert_eq!(fs.get("readTextFile"), Some(&doomhelix_agent::json::Json::Bool(false)));
    let info = init.get("clientInfo").unwrap();
    assert_eq!(info.get_str("name"), Some("helix"));
    assert_eq!(info.get_str("title"), Some("Helix"));
    let agent = RunningAgentState::started("codex".to_string());
    assert!(handshake.iter().all(|request| request.id < agent.next_request_id));
}

#[test]
fn cursor_sits_at_the_primary_head() {
    let mut facts = sample_facts();
    facts.ranges = vec![range(0, 1, "f"), range(4, 9, "hello")];
    facts.primary_index = 1;
    facts.cursor_column = 9;
    let s = editor_snapshot(facts, &AgentConfig::default());
    assert_eq!(s.cursor.char, 9);
    assert_eq!(s.selections.iter().filter(|sel| sel.primary).count(), 1);
    assert!(s.selections[1].primary);
}

#[test]
fn config_layers_report_errors_in_order() {
    assert_eq!(config_layers(LayerOutcome::Parsed, LayerOutcome::Parsed), Ok(LayerPlan::Both));
    assert_eq!(config_layers(LayerOutcome::BadConfig, LayerOutcome::BadConfig), Err(LayerError::BadConfig(Layer::Local)));
    assert_eq!(config_layers(LayerOutcome::BadConfig, LayerOutcome::Unreadable), Err(LayerError::BadConfig(Layer::Global)));
    assert_eq!(config_layers(LayerOutcome::Parsed, LayerOutcome::BadConfig), Err(LayerError::BadConfig(Layer::Local)));
    assert_eq!(config_layers(LayerOutcome::Parsed, LayerOutcome::Unreadable), Ok(LayerPlan::Only(Layer::Global)));
    assert_eq!(config_layers(LayerOutcome::Unreadable, LayerOutcome::Parsed), Ok(LayerPlan::Only(Layer::Local)));
    assert_eq!(config_layers(LayerOutcome::Unreadable, LayerOutcome::Unreadable), Err(LayerError::Unreadable(Layer::Global)));
}

#[test]
fn config_layers_decide_what_wins() {
    assert_eq!(key_layers(LayerPlan::Both), vec![Layer::Global, Layer::Local]);
    assert_eq!(key_layers(LayerPlan::Only(Layer::Local)), vec![Layer::Local]);
    assert_eq!(theme_layer(LayerPlan::Both, true, true), Some(Layer::Local));
    assert_eq!(theme_layer(LayerPlan::Both, true, false), Some(Layer::Global));
    assert_eq!(theme_layer(LayerPlan::Only(Layer::Global), false, true), None);
    assert_eq!(editor_source(LayerPlan::Both, true, true), EditorSource::Merged);
    assert_eq!(editor_source(LayerPlan::Both, false, true), EditorSource::From(Layer::Local));
    assert_eq!(editor_source(LayerPlan::Both, false, false), EditorSource::Default);
    assert_eq!(editor_source(LayerPlan::Only(Layer::Local), true, false), EditorSource::Default);
    assert_eq!(agent_layers(true, true), Some(vec![Layer::Global, Layer::Local]));
    assert_eq!(agent_layers(false, true), Some(vec![Layer::Local]));
    assert_eq!(agent_layers(false, false), None);
    assert_eq!(agent_section(true, true), AgentSection::EditorAgent);
    assert_eq!(agent_section(false, true), AgentSection::Agent);
    assert_eq!(agent_section(false, false), AgentSection::Whole);
}
