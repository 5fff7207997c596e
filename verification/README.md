# doomhelix_agent

The agent integration of the DoomHelix editor, as a verified library: the
Agent Client Protocol messages the editor sends and answers, the
content-length framing of the transport, the editor-context snapshot and the
prompts built from it, the transcript, the decisions of a prompt turn, and the
logic of the `helix-codex-agent` adapter. Each public function states what it
returns in its contract, and Verus proves the code against it.

Layout:

- `src/` — the library, verified with Verus.
  - `json.rs`, `text.rs` — the JSON value model and the string helpers.
  - `acp.rs`, `transport.rs` — protocol messages and framing.
  - `context.rs`, `snapshot.rs`, `session.rs` — the editor snapshot, its
    assembly from what the editor reports, and the session record.
  - `config.rs`, `layers.rs`, `runtime.rs`, `transcript.rs` — agent
    configuration, how configuration files are layered, runtime slots and
    the transcript.
  - `turn.rs`, `modes.rs`, `permission.rs`, `summary.rs` — one prompt turn as
    a state machine, approval-mode selection, requests from the agent and
    log summaries.
  - `adapter.rs` — the adapter that answers prompts with `codex exec`.
- `tests/` — tests of the library on concrete values.
- `app/` — the programs around it: the adapter's `main`, the agent process
  over `tokio`, the runtime loop that drives prompt turns, and the
  `serde`/`toml` copies of the library's types.

Not here: reading the editor itself (documents, selections, the version
control provider, the UI prompt) and building the editor's whole
configuration (key maps, editor settings, merging TOML values). Those belong
to the editor's own crates (`helix-view`, `helix-core`, `helix-vcs`,
`helix-loader`), which this crate does not have; what they report comes in
as plain values (`snapshot::EditorFacts`, the question callback of
`app/agent/runtime.rs`, the merge function of `app/agent/config.rs`).
