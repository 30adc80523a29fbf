use std::sync::Arc;

use fresh_editor::artifacts::{
    checkpoint_file, destination_name, find_saved_terminal, finish_terminal_artifacts,
    first_free_suffix, follow_path, plan_relocations, relocations_of_phase,
    rollback_terminal_artifacts, terminal_files, ArtifactFile, ArtifactRun, MoveDecision, Relocation,
    SavedTerminal,
};
use fresh_editor::authority::{
    Authority, AuthoritySpec, IdentityClaim, RemoteAgentSpec, RemoteTransport, TrustLevel,
    WorkspaceRoot,
};
use fresh_editor::documents::{
    BufferContent, BufferMetadata, BufferState, DisplayFlags, EventLog, SavedDiff, TabTarget,
};
use fresh_editor::dormant::PromotionSource;
use fresh_editor::editor::{DormantRemote, Editor, EditorConfig, Subscription};
use fresh_editor::effects::{Effect, HookEvent, HookName, RemoteAttachOwner};
use fresh_editor::extraction::ExtractionStart;
use fresh_editor::extraction_steps::{CheckpointStep, PrepareStep, PublishStep, RollbackStep};
use fresh_editor::extraction_run::{
    carry_checkpoint, moves_checkpoint, ExtractionOutcome, ExtractionStep,
};
use fresh_editor::geometry::Rect;
use fresh_editor::ids::{AuthorityStamp, BufferId, TerminalId, WindowId};
use fresh_editor::mouse::MouseButton;
use fresh_editor::notice::{LocalizedMessage, Notice, Rejection};
use fresh_editor::terminals::{Companion, Terminal};
use fresh_editor::text_map::TextMap;
use fresh_editor::window::{StateEntry, StateValue, Window};
use fresh_editor::windows::{LocalSite, ScratchBuffer, WindowSeed};

fn root(path: &str) -> Arc<WorkspaceRoot> {
    Arc::new(WorkspaceRoot {
        path: path.to_string(),
        quoted: format!("{:?}", path),
        canonical: path.to_string(),
        name: path.trim_start_matches('/').to_string(),
        absolute: path.starts_with('/'),
    })
}

fn authority(stamp: u64) -> Authority {
    Authority {
        stamp: AuthorityStamp(stamp),
        display_label: String::new(),
        trust: TrustLevel::Trusted,
        env_active: false,
        remote: None,
        scope: None,
    }
}

fn buffer_state(text: &str) -> BufferState {
    BufferState {
        content: BufferContent {
            bytes: text.as_bytes().to_vec(),
            grapheme_starts: Vec::new(),
            path: None,
            modified: false,
            line_count: Some(1),
            language: "text".to_string(),
            primary_cursor_line: 0,
            saved_diff: Arc::new(SavedDiff {
                equal: true,
                byte_ranges: Vec::new(),
            }),
            text_properties: Arc::new(Vec::new()),
        },
        flags: DisplayFlags {
            line_numbers: true,
            show_cursors: true,
            cursor_visibility_locked: false,
            editing_disabled: false,
            indentation_guide_override: None,
            scrollable: true,
            interactive_widget_panel: false,
        },
        popups: Vec::new(),
    }
}

fn metadata(name: &str) -> BufferMetadata {
    BufferMetadata {
        display_name: name.to_string(),
        file_path: None,
        is_virtual: false,
        is_preview: false,
        hidden_from_tabs: false,
        auto_revert_enabled: true,
        synthetic_placeholder: false,
        read_only: false,
    }
}

fn window(id: u64, buffer: u64, text: &str) -> Window {
    let mut window = Window::new(
        WindowId(id),
        format!("w{}", id),
        root(&format!("/p{}", id)),
        format!("id-{}", id),
        authority(100 + id),
        80,
        24,
    );
    window.seed(
        BufferId(buffer),
        buffer_state(text),
        metadata("scratch"),
        EventLog { events: Vec::new() },
    );
    window
}

fn config() -> EditorConfig {
    EditorConfig {
        animations: true,
        auto_create_empty_buffer: true,
        runtime: true,
        bridge: true,
        terminal_width: 80,
        terminal_height: 24,
    }
}

/// An editor with the windows 1 (in the foreground) and 2.
fn editor() -> Editor {
    let mut editor = Editor::new(config(), window(1, 11, "one\ntwo\n"), None);
    editor.windows.insert(2, window(2, 22, "other"));
    editor.next_window_id = 3;
    editor.plugins.active_instances.insert(7);
    editor
}

fn seed(stable_id: &str, buffer: u64) -> WindowSeed {
    WindowSeed {
        stable_id: stable_id.to_string(),
        authority: authority(500),
        scratch: ScratchBuffer {
            buffer: BufferId(buffer),
            state: buffer_state(""),
            metadata: metadata("[No Name]"),
            log: EventLog { events: Vec::new() },
        },
    }
}

fn terminal(pid: u32) -> Terminal {
    Terminal {
        alive: true,
        pid: Some(pid),
        wants_mouse: false,
        wants_mouse_motion: false,
        alternate_screen: false,
        companion: None,
        cwd: None,
    }
}

fn ssh(host: &str) -> Arc<RemoteAgentSpec> {
    Arc::new(RemoteAgentSpec {
        transport: RemoteTransport::Ssh {
            user: None,
            host: host.to_string(),
            port: None,
            identity_file: None,
            remote_path: None,
            extra_args: Vec::new(),
        },
        identity: IdentityClaim::Absent,
        window: true,
        label: Some("target".to_string()),
        command: None,
    })
}

fn status(editor: &Editor, window: u64) -> Option<String> {
    editor.windows[&window]
        .ui
        .status_message
        .as_ref()
        .and_then(|n| n.text())
}

#[test]
fn pointer_switch_cancels_outgoing_mouse_state() {
    let mut editor = editor();
    let source = editor.active_window;
    let target = editor.create_window_at(root("/target"), "target".into(), seed("t", 90));
    {
        let mouse = &mut editor.windows.get_mut(&source.0).unwrap().mouse_state;
        mouse.start_mouse_gesture(MouseButton::Left);
        mouse.dragging_text_selection = true;
    }

    editor.switch_active_window_pointer(target);

    assert_eq!(editor.active_window, target);
    let mouse = &editor.windows.get(&source.0).unwrap().mouse_state;
    assert!(mouse.gesture_captures.is_empty());
    assert!(!mouse.dragging_text_selection);
}

fn open_in(window: &mut Window, buffer: u64, path: &str) {
    let mut opened = metadata(path);
    opened.file_path = Some(path.to_string());
    window.documents.metadata.insert(buffer, opened);
}

#[test]
fn dormant_promotion_restores_exact_id_without_stealing_focus() {
    let mut editor = editor();
    let foreground = editor.active_window;
    let target = editor.create_window_at(root("/remote"), "target".into(), seed("saved", 90));
    let mut saved = editor.windows.remove(&target.0).unwrap();
    open_in(&mut saved, 91, "/remote/alpha.txt");
    let sibling = editor.create_co_tenant_window(root("/remote"), seed("sibling", 94));
    open_in(
        editor.windows.get_mut(&sibling.0).unwrap(),
        95,
        "/remote/beta.txt",
    );
    let mut saved_sibling = window(sibling.0, 96, "");
    open_in(&mut saved_sibling, 95, "/remote/beta.txt");
    let mut on_disk = vec![
        ("sibling".to_string(), saved_sibling),
        ("saved".to_string(), saved),
    ];
    let spec = AuthoritySpec::RemoteAgent(ssh("example.invalid"));
    editor.dormant_remote.insert(
        target.0,
        DormantRemote {
            label: "target".to_string(),
            root: root("/remote"),
            project_path: Some("/remote".to_string()),
            shared_worktree: true,
            plugin_state: Arc::new(Vec::new()),
            authority_spec: spec.duplicate(),
            stable_id: Some("saved".to_string()),
        },
    );
    assert!(matches!(
        editor.promotion_source(target, true),
        Some(PromotionSource::Exact(id)) if id == "saved"
    ));
    assert!(matches!(
        editor.promotion_source(target, false),
        Some(PromotionSource::Nothing)
    ));

    let at = match editor.promotion_source(target, true) {
        Some(PromotionSource::Exact(id)) => on_disk.iter().position(|(saved, _)| *saved == id),
        Some(PromotionSource::ByRoot) => Some(0),
        _ => None,
    };
    let loaded = at.map(|at| on_disk.remove(at).1);
    editor.promote_dormant_remote(
        target,
        root("/remote"),
        seed("fresh", 92),
        spec,
        true,
        Ok(loaded),
    );

    assert_eq!(editor.active_window, foreground);
    let promoted = editor.windows.get(&target.0).unwrap();
    assert_eq!(promoted.stable_id, "saved");
    assert!(promoted.documents.metadata.values().any(|metadata| {
        metadata
            .file_path
            .as_ref()
            .is_some_and(|path| path.ends_with("alpha.txt"))
    }));
    assert!(!promoted.documents.metadata.values().any(|metadata| {
        metadata
            .file_path
            .as_ref()
            .is_some_and(|path| path.ends_with("beta.txt"))
    }));
    assert!(editor.dormant_remote.is_empty());
}

fn dormant(stable_id: Option<&str>) -> DormantRemote {
    DormantRemote {
        label: "target".to_string(),
        root: root("/remote"),
        project_path: None,
        shared_worktree: false,
        plugin_state: Arc::new(Vec::new()),
        authority_spec: AuthoritySpec::RemoteAgent(ssh("example.invalid")),
        stable_id: stable_id.map(|id| id.to_string()),
    }
}

#[test]
fn a_session_stays_dormant_until_what_was_saved_is_found() {
    let mut editor = editor();
    let id = WindowId(7);
    editor.dormant_remote.insert(7, dormant(Some("saved")));
    editor.ensure_dormant_shell(id, seed("shell", 92));
    let spec = || AuthoritySpec::RemoteAgent(ssh("example.invalid"));
    editor.promote_dormant_remote(id, root("/remote"), seed("x", 93), spec(), true, Ok(None));
    assert!(editor.dormant_remote.contains_key(&7));
    assert_eq!(editor.windows[&7].stable_id, "shell");
    assert_eq!(
        status(&editor, 7).unwrap(),
        "Connection failed: workspace saved was not found"
    );
    assert_eq!(
        editor.windows[&7]
            .ui
            .remote_reconnect_error
            .as_ref()
            .unwrap()
            .text(),
        "workspace saved was not found"
    );
    assert!(editor.remote.keepalives.is_empty());
    assert!(editor.take_effects().is_empty());
    editor.promote_dormant_remote(
        id,
        root("/remote"),
        seed("x", 93),
        spec(),
        true,
        Err("disk".to_string()),
    );
    assert_eq!(status(&editor, 7).unwrap(), "Connection failed: disk");
    assert!(editor.dormant_remote.contains_key(&7));

    editor.promote_dormant_remote(id, root("/other"), seed("x", 93), spec(), false, Ok(None));
    assert!(editor.dormant_remote.is_empty());
    assert_eq!(editor.windows[&7].stable_id, "saved");
    assert_eq!(editor.windows[&7].root.path, "/other");
    assert_eq!(status(&editor, 7).unwrap(), "Connected: target");

    editor.dormant_remote.insert(8, dormant(None));
    assert!(matches!(
        editor.promotion_source(WindowId(8), true),
        Some(PromotionSource::ByRoot)
    ));
    editor.promote_dormant_remote(
        WindowId(8),
        root("/remote"),
        seed("fresh", 94),
        spec(),
        true,
        Ok(None),
    );
    assert_eq!(editor.windows[&8].stable_id, "fresh");
}

#[test]
fn a_restored_session_keeps_its_number_label_and_root() {
    let mut editor = editor();
    editor.dormant_remote.insert(7, dormant(Some("saved")));
    let spec = AuthoritySpec::RemoteAgent(ssh("example.invalid"));
    editor.promote_dormant_remote(
        WindowId(7),
        root("/connected"),
        seed("x", 93),
        spec,
        true,
        Ok(Some(window(99, 95, "text"))),
    );
    let promoted = &editor.windows[&7];
    assert_eq!(promoted.id, WindowId(7));
    assert_eq!(promoted.label, "target");
    assert_eq!(promoted.root.path, "/connected");
    assert_eq!(promoted.authority.stamp, AuthorityStamp(500));
    assert!(promoted.documents.buffers.contains_key(&95));
}

#[test]
fn remote_identity_replacement_drops_old_terminal_and_plugin_state() {
    let mut editor = editor();
    let window_id = editor.active_window;
    let old_stable_id = editor.windows[&window_id.0].stable_id.clone();
    {
        let window = editor.windows.get_mut(&window_id.0).unwrap();
        window.terminals.bindings.insert(77, TerminalId(23));
        window
            .terminals
            .commands
            .insert(23, Arc::new(vec!["old-agent".to_string()]));
        window.plugin_state = Arc::new(vec![StateEntry {
            plugin: "old-plugin".to_string(),
            key: "tenant".to_string(),
            value: StateValue::Text("old".to_string()),
        }]);
        window.terminals.script_tokens.insert(23);
    }

    editor.replace_remote_window_without_restore(
        window_id,
        root("/new"),
        Some("new".to_string()),
        seed("other", 93),
        AuthoritySpec::Local,
    );

    let replacement = editor.windows.get(&window_id.0).unwrap();
    assert_eq!(replacement.root.path, "/new");
    assert_eq!(replacement.stable_id, old_stable_id);
    assert!(replacement.terminals.bindings.is_empty());
    assert!(replacement.terminals.commands.is_empty());
    assert!(replacement.terminals.script_tokens.is_empty());
    assert!(replacement.plugin_state.is_empty());
    assert!(editor
        .take_effects()
        .iter()
        .any(|e| matches!(e, Effect::UnwatchWindow { window } if *window == window_id)));
}

#[test]
fn closing_window_aborts_only_its_hanging_reconnect() {
    let mut editor = editor();
    let foreground = editor.active_window;
    let target = editor.create_window_at(root("/target"), "target".into(), seed("t", 90));
    let foreground_attempt = editor
        .begin_remote_attach_attempt(RemoteAttachOwner::Reconnect { window: foreground })
        .unwrap();
    let target_attempt = editor
        .begin_remote_attach_attempt(RemoteAttachOwner::Reconnect { window: target })
        .unwrap();
    editor.take_effects();

    assert!(editor.close_window(target));

    let cancelled: Vec<u64> = editor
        .take_effects()
        .iter()
        .filter_map(|e| match e {
            Effect::CancelConnect { attempt } => Some(*attempt),
            _ => None,
        })
        .collect();
    assert_eq!(cancelled, vec![target_attempt]);
    assert_eq!(
        editor.remote.reconnects.get(&foreground.0),
        Some(&foreground_attempt)
    );
    assert!(!editor.remote.reconnects.contains_key(&target.0));
}

/// Drives a run over paths that exist or not, every rename working.
fn drive(mut run: ArtifactRun, relocations: &[&Relocation], files: &mut Vec<String>) -> bool {
    while let Some(at) = run.current() {
        let r = relocations[at];
        let source = files.contains(&r.source);
        let destination = files.contains(&r.destination);
        if run.inspect(source, destination) == MoveDecision::Rename {
            let (from, to) = if run.forward {
                (&r.source, &r.destination)
            } else {
                (&r.destination, &r.source)
            };
            files.retain(|f| f != from);
            files.push(to.clone());
            run.renamed(true);
        }
    }
    run.outcome() == Some(true)
}

fn relocation(source: &str, destination: &str, after: bool) -> Relocation {
    Relocation {
        source: source.to_string(),
        destination: destination.to_string(),
        after_source_cutover: after,
    }
}

#[test]
fn extraction_keeps_source_lock_path_fenced_until_cutover() {
    let relocations = vec![
        relocation("source/terminal.txt.lock", "target/terminal.txt.lock", true),
        relocation("source/terminal.txt", "target/terminal.txt", false),
    ];
    let mut files = vec![
        "source/terminal.txt".to_string(),
        "source/terminal.txt.lock".to_string(),
    ];
    let phase = |after: bool| -> Vec<&Relocation> {
        relocations_of_phase(&relocations, after)
            .into_iter()
            .map(|i| &relocations[i])
            .collect()
    };

    let early = phase(false);
    assert!(drive(
        finish_terminal_artifacts(early.len()),
        &early,
        &mut files
    ));
    assert!(!files.contains(&"source/terminal.txt".to_string()));
    assert!(files.contains(&"target/terminal.txt".to_string()));
    assert!(files.contains(&"source/terminal.txt.lock".to_string()));
    assert!(!files.contains(&"target/terminal.txt.lock".to_string()));

    let late = phase(true);
    assert!(drive(
        finish_terminal_artifacts(late.len()),
        &late,
        &mut files
    ));
    assert!(!files.contains(&"source/terminal.txt.lock".to_string()));
    assert!(files.contains(&"target/terminal.txt.lock".to_string()));
}

#[test]
fn rolling_back_restores_the_files() {
    let relocations = vec![
        relocation("s/a", "t/a", false),
        relocation("s/b", "t/b", false),
        relocation("s/c", "t/c", true),
    ];
    let all: Vec<&Relocation> = relocations.iter().collect();
    let before = vec!["s/a".to_string(), "s/b".to_string(), "s/c".to_string()];
    let mut files = before.clone();
    assert!(drive(finish_terminal_artifacts(3), &all, &mut files));
    assert_eq!(
        files,
        vec!["t/a".to_string(), "t/b".to_string(), "t/c".to_string()]
    );
    assert!(drive(finish_terminal_artifacts(3), &all, &mut files));
    assert!(drive(rollback_terminal_artifacts(3), &all, &mut files));
    files.sort();
    assert_eq!(files, before);
    let mut stuck = vec!["s/a".to_string(), "t/a".to_string()];
    assert!(!drive(finish_terminal_artifacts(3), &all, &mut stuck));
    let mut failing = finish_terminal_artifacts(1);
    assert_eq!(failing.inspect(true, false), MoveDecision::Rename);
    failing.renamed(false);
    assert_eq!(failing.outcome(), Some(false));
}

#[test]
fn moved_files_get_free_names() {
    assert_eq!(
        destination_name("t.log", "t", &Some("log".to_string()), 0),
        "t.log"
    );
    assert_eq!(
        destination_name("t.log", "t", &Some("log".to_string()), 2),
        "t-moved-2.log"
    );
    assert_eq!(destination_name("t", "t", &None, 1), "t-moved-1");
    assert_eq!(first_free_suffix(&vec![true, true, false, true]), 2);
    assert_eq!(first_free_suffix(&vec![true]), 1);
}

fn saved(history: &str, backing: &str, generation: Option<&str>) -> SavedTerminal {
    SavedTerminal {
        history_path: Some(history.to_string()),
        backing_path: backing.to_string(),
        log_path: "log".to_string(),
        backing_history_end: 5,
        checkpoint_generation: generation.map(|g| g.to_string()),
    }
}

#[test]
fn files_that_were_saved_move_after_the_cutover() {
    let terminal = saved("h", "c", Some("g1"));
    assert_eq!(
        checkpoint_file(&terminal, &Some("b".to_string())),
        Some("c".to_string())
    );
    assert_eq!(checkpoint_file(&terminal, &Some("c".to_string())), None);
    assert_eq!(checkpoint_file(&saved("h", "c", None), &None), None);
    let terminals = vec![saved("x", "y", None), saved("h", "c", None)];
    assert_eq!(find_saved_terminal(&terminals, &Some("h".to_string())), Some(1));
    assert_eq!(find_saved_terminal(&terminals, &Some("z".to_string())), None);
    let relocations = plan_relocations(
        vec![
            ArtifactFile {
                source: "b".to_string(),
                destination: "t/b".to_string(),
                lock: None,
            },
            ArtifactFile {
                source: "h".to_string(),
                destination: "t/h".to_string(),
                lock: Some(("h.lock".to_string(), "t/h.lock".to_string())),
            },
        ],
        &terminal,
    );
    let plan: Vec<(&str, &str, bool)> = relocations
        .iter()
        .map(|r| {
            (
                r.source.as_str(),
                r.destination.as_str(),
                r.after_source_cutover,
            )
        })
        .collect();
    assert_eq!(
        plan,
        vec![
            ("b", "t/b", false),
            ("h.lock", "t/h.lock", true),
            ("h", "t/h", true)
        ]
    );
    assert_eq!(
        follow_path(&relocations, "h", true),
        Some("t/h".to_string())
    );
    assert_eq!(
        follow_path(&relocations, "t/h", false),
        Some("h".to_string())
    );
    assert_eq!(follow_path(&relocations, "q", true), None);
}

#[test]
fn a_moved_terminal_keeps_its_checkpoint() {
    let relocations = vec![relocation("h", "t/h", true), relocation("c", "t/c", true)];
    let carried = carry_checkpoint(
        saved("t/h", "t/b", None),
        &vec![saved("h", "c", Some("g1"))],
        &relocations,
    );
    assert_eq!(carried.backing_path, "t/c");
    assert_eq!(carried.checkpoint_generation, Some("g1".to_string()));
    let own = carry_checkpoint(
        saved("own", "b", None),
        &vec![saved("h", "c", Some("g1"))],
        &relocations,
    );
    assert_eq!(own.backing_path, "b");
    assert_eq!(own.checkpoint_generation, None);
    let source = vec![saved("h", "c", Some("g1"))];
    assert!(moves_checkpoint(&saved("t/h", "t/b", None), &source, &relocations));
    assert!(moves_checkpoint(&saved("own", "b", None), &source, &Vec::new()));
    assert!(!moves_checkpoint(
        &saved("t/h", "t/b", None),
        &source,
        &vec![relocation("h", "t/h", true)]
    ));
}

#[test]
fn an_extraction_is_complete_only_without_failure() {
    let run = |results: &[bool]| {
        results
            .iter()
            .fold(ExtractionStep::start(), |step, ok| step.next(*ok))
    };
    assert_eq!(
        run(&[true, true, true, true]),
        ExtractionStep::ClearJournal
    );
    assert_eq!(
        run(&[true, true, true, true, false]),
        ExtractionStep::Finished(ExtractionOutcome::Complete)
    );
    assert_eq!(
        run(&[true, true, true, false]),
        ExtractionStep::Finished(ExtractionOutcome::Pending)
    );
    assert_eq!(
        run(&[true, false, true]),
        ExtractionStep::Finished(ExtractionOutcome::RolledBack)
    );
    assert_eq!(
        run(&[false, false]),
        ExtractionStep::Finished(ExtractionOutcome::Pending)
    );
}

#[test]
fn a_preparation_that_fails_is_undone() {
    let run = |fails: &[PrepareStep]| {
        let mut steps = vec![PrepareStep::start()];
        while !matches!(
            steps.last(),
            Some(PrepareStep::Prepared | PrepareStep::Abandoned)
        ) {
            let step = *steps.last().unwrap();
            steps.push(step.next(!fails.contains(&step)));
        }
        steps
    };
    assert_eq!(
        run(&[]),
        vec![
            PrepareStep::FindFiles,
            PrepareStep::WriteJournal,
            PrepareStep::CreateDirectory,
            PrepareStep::Release,
            PrepareStep::MoveEarlyFiles,
            PrepareStep::Adopt,
            PrepareStep::Prepared
        ]
    );
    assert_eq!(
        run(&[PrepareStep::Release])[3..],
        [
            PrepareStep::Release,
            PrepareStep::ClearJournal { released: false },
            PrepareStep::Abandoned
        ]
    );
    assert_eq!(
        run(&[PrepareStep::Adopt])[5..],
        [
            PrepareStep::Adopt,
            PrepareStep::BringFilesBack,
            PrepareStep::ClearJournal { released: true },
            PrepareStep::GiveBack,
            PrepareStep::Abandoned
        ]
    );
    assert_eq!(
        run(&[PrepareStep::MoveEarlyFiles, PrepareStep::BringFilesBack])[4..],
        [
            PrepareStep::MoveEarlyFiles,
            PrepareStep::BringFilesBack,
            PrepareStep::GiveBack,
            PrepareStep::Abandoned
        ]
    );
    assert_eq!(run(&[PrepareStep::WriteJournal]).len(), 3);
    assert_eq!(run(&[PrepareStep::FindFiles]).len(), 2);
    assert_eq!(run(&[PrepareStep::CreateDirectory]).len(), 5);
}

#[test]
fn a_rollback_is_all_or_nothing() {
    let run = |fails: &[RollbackStep]| {
        let mut steps = vec![RollbackStep::start()];
        while steps.last().unwrap().outcome().is_none() {
            let step = *steps.last().unwrap();
            steps.push(step.next(!fails.contains(&step)));
        }
        steps
    };
    assert_eq!(
        run(&[RollbackStep::RepublishSource, RollbackStep::ClearJournal]),
        vec![
            RollbackStep::BringFilesBack,
            RollbackStep::Release,
            RollbackStep::Adopt,
            RollbackStep::MoveBack,
            RollbackStep::RepublishSource,
            RollbackStep::DiscardTarget,
            RollbackStep::ClearJournal,
            RollbackStep::TakenBack
        ]
    );
    assert_eq!(
        run(&[RollbackStep::BringFilesBack]),
        vec![RollbackStep::BringFilesBack, RollbackStep::Kept]
    );
    assert_eq!(
        run(&[RollbackStep::Release])[2..],
        [
            RollbackStep::MoveFilesAgain { released: false },
            RollbackStep::Kept
        ]
    );
    assert_eq!(
        run(&[RollbackStep::Adopt])[3..],
        [
            RollbackStep::MoveFilesAgain { released: true },
            RollbackStep::GiveBack,
            RollbackStep::Kept
        ]
    );
    assert_eq!(RollbackStep::Kept.outcome(), Some(false));
    assert_eq!(RollbackStep::TakenBack.outcome(), Some(true));
}

#[test]
fn a_tab_moves_between_two_saves() {
    assert_eq!(
        CheckpointStep::start().next(true).next(true).next(true),
        CheckpointStep::Ready
    );
    assert_eq!(
        CheckpointStep::start().next(true).next(false).next(true),
        CheckpointStep::Abandoned
    );
    assert_eq!(
        PublishStep::start().next(true).next(true),
        PublishStep::Finished { published: true }
    );
    assert_eq!(
        PublishStep::start().next(true).next(false),
        PublishStep::Finished { published: false }
    );
    assert_eq!(
        PublishStep::start().next(false).next(true),
        PublishStep::Finished { published: false }
    );
}

#[test]
fn a_partial_move_is_undone() {
    let relocations = [
        relocation("a", "x", false),
        relocation("b", "y", false),
        relocation("c", "z", true),
    ];
    let all: Vec<&Relocation> = relocations.iter().collect();
    let texts = |names: &[&str]| -> Vec<String> { names.iter().map(|n| n.to_string()).collect() };
    let mut files = texts(&["a", "y", "c", "other"]);
    assert!(drive(rollback_terminal_artifacts(3), &all, &mut files));
    files.sort();
    assert_eq!(files, texts(&["a", "b", "c", "other"]));
    assert!(drive(rollback_terminal_artifacts(3), &all, &mut files));
    files.sort();
    assert_eq!(files, texts(&["a", "b", "c", "other"]));
    let mut stuck = texts(&["x", "b", "y", "z"]);
    assert!(!drive(rollback_terminal_artifacts(3), &all, &mut stuck));
    stuck.sort();
    assert_eq!(stuck, texts(&["b", "c", "x", "y"]));
}

#[test]
fn the_files_of_a_terminal_are_listed_in_order() {
    let path = |p: &str| Some(p.to_string());
    let own = saved("h", "c", Some("g"));
    assert_eq!(
        terminal_files(&path("b"), &path("h"), &path("l"), &own),
        vec!["b", "h", "l", "c"]
    );
    assert_eq!(
        terminal_files(&path("c"), &None, &path("l"), &own),
        vec!["c", "l"]
    );
    assert!(terminal_files(&None, &None, &None, &saved("h", "c", None)).is_empty());
}

#[test]
fn showing_a_window_announces_it() {
    let mut editor = editor();
    editor.plugins.subscriptions.push(Subscription {
        plugin: "p".to_string(),
        hook: HookName::ActiveWindowChanged,
    });
    editor.set_active_window(WindowId(2));
    assert_eq!(editor.active_window, WindowId(2));
    let effects = editor.take_effects();
    assert!(matches!(effects[0], Effect::Checkpoint { window: WindowId(1) }));
    assert!(effects.iter().any(|e| matches!(
        e,
        Effect::RunHook {
            window: WindowId(2),
            event: HookEvent::ActiveWindowChanged {
                previous: WindowId(1)
            }
        }
    )));
    editor.set_active_window(WindowId(2));
    editor.set_active_window(WindowId(99));
    assert!(editor.take_effects().is_empty());
}

#[test]
fn a_hook_reaches_only_the_plugin_that_listens() {
    let mut editor = editor();
    editor.plugins.subscriptions.push(Subscription {
        plugin: "p".to_string(),
        hook: HookName::WindowCreated,
    });
    assert!(!editor.run_plugin_hook_for_plugin_in_window(
        "q",
        WindowId(2),
        HookEvent::WindowCreated
    ));
    assert!(editor.run_plugin_hook_for_plugin_in_window(
        "p",
        WindowId(2),
        HookEvent::WindowCreated
    ));
    assert!(!editor.run_plugin_hook_for_window(WindowId(9), HookEvent::WindowCreated));
    assert_eq!(editor.take_effects().len(), 1);
}

#[test]
fn a_window_slides_in_where_animations_are_on() {
    let mut editor = editor();
    editor.set_active_window_animated(WindowId(2), "left", Rect::new(0, 0, 10, 5));
    assert!(matches!(
        editor.take_effects().last(),
        Some(Effect::SlideIn {
            from: fresh_editor::command::Edge::Left,
            duration_ms: 180,
            ..
        })
    ));
    editor.config.animations = false;
    editor.set_active_window_animated(WindowId(1), "left", Rect::new(0, 0, 10, 5));
    assert!(!editor
        .take_effects()
        .iter()
        .any(|e| matches!(e, Effect::SlideIn { .. })));
    editor.prewarm_window(WindowId(2));
    assert!(editor.take_effects().is_empty());
}

#[test]
fn previous_undoes_next() {
    let mut editor = editor();
    editor.windows.insert(5, window(5, 55, ""));
    editor.next_window();
    assert_eq!(editor.active_window, WindowId(2));
    editor.next_window();
    assert_eq!(editor.active_window, WindowId(5));
    editor.next_window();
    assert_eq!(editor.active_window, WindowId(1));
    editor.prev_window();
    assert_eq!(editor.active_window, WindowId(5));
    editor.handle_set_window_cycle_order(vec![WindowId(9), WindowId(5), WindowId(2)]);
    editor.next_window();
    assert_eq!(editor.active_window, WindowId(2));
    editor.next_window();
    assert_eq!(editor.active_window, WindowId(5));
    editor.handle_set_window_cycle_order(Vec::new());
    assert!(editor.window_cycle_order.is_none());
}

#[test]
fn a_directory_has_one_window() {
    let mut editor = editor();
    let first = editor.create_window_at(root("/x"), "x".into(), seed("a", 90));
    let again = editor.create_window_at(root("/x"), "y".into(), seed("b", 91));
    assert_eq!(first, again);
    assert_eq!(first, WindowId(3));
    assert_eq!(editor.windows[&3].label, "x");
    let tenant = editor.create_co_tenant_window(root("/x"), seed("c", 92));
    assert_eq!(tenant, WindowId(4));
    assert_eq!(editor.windows[&4].label, "x (2)");
    assert_eq!(editor.windows_at_root_count(&root("/x")), 2);
    assert_eq!(editor.find_window_by_root(&root("/x")), Some(WindowId(3)));
    assert_eq!(editor.find_window_by_root(&root("/y")), None);
}

#[test]
fn a_local_backend_is_scoped_to_its_directory() {
    let editor = editor();
    let site = LocalSite {
        stamp: AuthorityStamp(9),
        state_dir: "/state".to_string(),
        trust_dir: "/trust".to_string(),
        trust: TrustLevel::Restricted,
    };
    let local = editor.local_session_authority(&root("/x"), &site);
    assert_eq!(local.stamp, AuthorityStamp(9));
    assert_eq!(local.trust, TrustLevel::Restricted);
    assert!(local.remote.is_none());
    let scope = local.scope.unwrap();
    assert_eq!(scope.state_dir, "/state");
    assert_eq!(scope.trust_dir, "/trust");
    assert_eq!(scope.root.path, "/x");
}

#[test]
fn the_window_in_the_foreground_is_never_closed() {
    let mut editor = editor();
    assert!(!editor.close_window(WindowId(1)));
    assert!(!editor.close_window(WindowId(9)));
    assert!(editor.close_window(WindowId(2)));
    assert!(!editor.has_window(WindowId(2)));
    assert!(!editor.close_window(WindowId(1)));
    assert!(editor.has_window(WindowId(1)));
}

#[test]
fn a_closed_window_waits_for_its_terminals() {
    let mut editor = editor();
    editor
        .windows
        .get_mut(&2)
        .unwrap()
        .terminals
        .live
        .insert(4, terminal(40));
    assert!(editor.close_window(WindowId(2)));
    assert!(editor.closing_windows.contains_key(&2));
    assert!(!editor
        .take_effects()
        .iter()
        .any(|e| matches!(e, Effect::WindowClosed { .. })));
}

#[test]
fn moving_a_buffer_back_restores_both_windows() {
    let mut editor = editor();
    editor.move_buffer_membership_to_window(BufferId(11), WindowId(2));
    assert!(!editor.windows[&1].documents.buffers.contains_key(&11));
    assert!(editor.windows[&2].documents.buffers.contains_key(&11));
    let layout = editor.windows[&2].documents.layout.as_ref().unwrap();
    let tabs = &layout.view_states[&layout.active_split.0 .0].open_buffers;
    assert!(tabs.contains(&TabTarget::Buffer(BufferId(11))));
    editor.move_buffer_membership_between_windows(BufferId(11), WindowId(2), WindowId(1));
    assert!(editor.windows[&1].documents.buffers.contains_key(&11));
    assert!(!editor.windows[&2].documents.buffers.contains_key(&11));
    assert_eq!(
        editor.windows[&1].documents.metadata[&11].display_name,
        "scratch"
    );
}

#[test]
fn tabs_that_cannot_move_say_why() {
    let mut editor = editor();
    assert!(matches!(
        editor.extract_tab_to_new_workspace(BufferId(11)),
        ExtractionStart::Refused
    ));
    assert!(matches!(
        editor.windows[&1].ui.status_message,
        Some(Notice::Localized(LocalizedMessage::ExtractNoFilePath))
    ));
    {
        let window = editor.windows.get_mut(&1).unwrap();
        window.terminals.bindings.insert(11, TerminalId(3));
    }
    editor.extract_tab_to_new_workspace(BufferId(11));
    assert!(matches!(
        editor.windows[&1].ui.status_message,
        Some(Notice::Localized(LocalizedMessage::ExtractTerminalDormant))
    ));
    {
        let window = editor.windows.get_mut(&1).unwrap();
        window.terminals.live.insert(3, terminal(30));
    }
    assert!(matches!(
        editor.extract_tab_to_new_workspace(BufferId(11)),
        ExtractionStart::Terminal {
            source: WindowId(1),
            terminal: TerminalId(3)
        }
    ));
    {
        let window = editor.windows.get_mut(&1).unwrap();
        window.terminals.companions.insert(3, Companion::Omp);
    }
    editor.extract_tab_to_new_workspace(BufferId(11));
    assert!(matches!(
        editor.windows[&1].ui.status_message,
        Some(Notice::Localized(LocalizedMessage::ExtractTerminalCompanion))
    ));
    {
        let window = editor.windows.get_mut(&1).unwrap();
        window.terminals.script_tokens.insert(3);
    }
    editor.extract_tab_to_new_workspace(BufferId(11));
    assert!(matches!(
        editor.windows[&1].ui.status_message,
        Some(Notice::Localized(
            LocalizedMessage::ExtractTerminalScriptCapable
        ))
    ));
    editor.self_update_terminal = Some(fresh_editor::ids::WindowTerminalId::new(
        WindowId(1),
        TerminalId(3),
    ));
    editor.extract_tab_to_new_workspace(BufferId(11));
    assert!(matches!(
        editor.windows[&1].ui.status_message,
        Some(Notice::Localized(LocalizedMessage::UpdateRunning))
    ));
    editor.windows.get_mut(&1).unwrap().authority_spec = AuthoritySpec::RemoteAgent(ssh("h"));
    editor.extract_tab_to_new_workspace(BufferId(11));
    assert_eq!(
        status(&editor, 1).unwrap(),
        "Cannot extract: source workspace is not local"
    );
}

#[test]
fn a_file_tab_moves_into_a_window_of_its_own() {
    let mut editor = editor();
    {
        let window = editor.windows.get_mut(&1).unwrap();
        let mut state = buffer_state("text");
        state.content.path = Some("/p1/a.txt".to_string());
        window.documents.buffers.insert(12, state);
        window.documents.metadata.insert(12, metadata("a.txt"));
    }
    match editor.extract_tab_to_new_workspace(BufferId(12)) {
        ExtractionStart::File { source, path } => {
            assert_eq!(source, WindowId(1));
            assert_eq!(path, "/p1/a.txt");
        }
        other => panic!("{:?}", other),
    }
    let plan = editor.open_extraction_window(WindowId(1), BufferId(12), seed("n", 90));
    assert_eq!(plan.target, WindowId(3));
    assert!(editor.windows[&3].documents.buffers.is_empty());
    editor.move_buffer_membership_between_windows(BufferId(12), WindowId(1), WindowId(3));
    editor.finish_tab_extraction(plan, true, "a.txt".to_string());
    assert_eq!(editor.active_window, WindowId(3));
    assert!(matches!(
        &editor.windows[&3].ui.status_message,
        Some(Notice::Localized(LocalizedMessage::ExtractedTab { name, label }))
            if name == "a.txt" && label == "p1 (2)"
    ));
}

#[test]
fn an_extraction_that_fails_is_taken_back() {
    let mut editor = editor();
    editor
        .windows
        .get_mut(&1)
        .unwrap()
        .documents
        .buffers
        .insert(12, buffer_state("text"));
    let plan = editor.open_extraction_window(WindowId(1), BufferId(12), seed("n", 90));
    editor.move_buffer_membership_between_windows(BufferId(12), WindowId(1), WindowId(3));
    editor
        .windows
        .get_mut(&1)
        .unwrap()
        .documents
        .buffers
        .insert(13, buffer_state("extra"));
    editor.take_effects();
    editor.finish_tab_extraction(plan, false, "a.txt".to_string());
    let ids: Vec<u64> = editor.windows[&1].documents.buffers.keys().copied().collect();
    assert_eq!(ids, vec![11, 12]);
    assert!(!editor.has_window(WindowId(3)));
    let effects = editor.take_effects();
    assert!(matches!(
        effects[0],
        Effect::RepublishSource {
            window: WindowId(1)
        }
    ));
    assert!(effects
        .iter()
        .any(|e| matches!(e, Effect::DiscardExtraction { stable_id, .. } if stable_id == "n")));
}

#[test]
fn leaves_show_the_last_focused_tab_instead() {
    let mut editor = editor();
    {
        let window = editor.windows.get_mut(&1).unwrap();
        for id in [12u64, 13, 14] {
            window.documents.buffers.insert(id, buffer_state(""));
            window.documents.metadata.insert(id, metadata("x"));
        }
        window
            .documents
            .metadata
            .get_mut(&13)
            .unwrap()
            .hidden_from_tabs = true;
        let layout = window.documents.layout.as_mut().unwrap();
        let split = layout.active_split.0 .0;
        let state = layout.view_states.get_mut(&split).unwrap();
        state.focus_history = vec![
            TabTarget::Buffer(BufferId(14)),
            TabTarget::Buffer(BufferId(12)),
            TabTarget::Buffer(BufferId(13)),
            TabTarget::Buffer(BufferId(11)),
        ];
    }
    editor.take_effects();
    editor.retarget_leaves_off_buffer(WindowId(1), BufferId(11));
    assert!(matches!(
        editor.take_effects().as_slice(),
        [Effect::SetPaneBuffer {
            window: WindowId(1),
            buffer: BufferId(12),
            ..
        }]
    ));
    editor.retarget_leaves_off_buffer(WindowId(2), BufferId(22));
    assert!(matches!(
        editor.take_effects().as_slice(),
        [Effect::SeedLeaf {
            window: WindowId(2),
            hidden: false,
            ..
        }]
    ));
}

#[test]
fn a_terminal_moves_and_comes_back() {
    let mut editor = editor();
    {
        let tables = &mut editor.windows.get_mut(&1).unwrap().terminals;
        tables.live.insert(3, terminal(30));
        tables.bindings.insert(11, TerminalId(3));
        tables.backing_files.insert(3, "s/b".to_string());
        tables
            .commands
            .insert(3, Arc::new(vec!["agent".to_string()]));
        tables.tracked_agent = Some(TerminalId(3));
        tables.process_groups.register(30, "terminal #3");
    }
    let relocations = vec![relocation("s/b", "t/b", false)];
    let back = vec![relocation("t/b", "s/b", false)];
    assert!(editor.move_terminal_machinery_to_window(
        WindowId(1),
        WindowId(2),
        BufferId(11),
        TerminalId(3),
        TerminalId(8),
        &relocations,
        PrepareStep::Prepared
    ));
    {
        let tables = &editor.windows[&2].terminals;
        assert_eq!(tables.bindings[&11], TerminalId(8));
        assert_eq!(tables.backing_files[&8], "t/b");
        assert_eq!(tables.tracked_agent, Some(TerminalId(8)));
        assert_eq!(tables.process_groups.entries()[0].label, "terminal #8");
        assert!(editor.windows[&1].terminals.process_groups.entries().is_empty());
    }
    assert!(editor.move_terminal_machinery_to_window(
        WindowId(2),
        WindowId(1),
        BufferId(11),
        TerminalId(8),
        TerminalId(3),
        &back,
        PrepareStep::Prepared
    ));
    let tables = &editor.windows[&1].terminals;
    assert_eq!(tables.backing_files[&3], "s/b");
    assert_eq!(tables.commands[&3][0], "agent");
    assert_eq!(tables.tracked_agent, Some(TerminalId(3)));
    assert!(editor.windows[&2].terminals.live.is_empty());
    assert!(!editor.move_terminal_machinery_to_window(
        WindowId(2),
        WindowId(1),
        BufferId(11),
        TerminalId(8),
        TerminalId(3),
        &back,
        PrepareStep::Prepared
    ));
}

#[test]
fn a_dormant_session_is_shown_in_an_empty_window() {
    let mut editor = editor();
    editor.dormant_remote.insert(
        6,
        DormantRemote {
            label: "remote".to_string(),
            root: root("/r"),
            project_path: None,
            shared_worktree: false,
            plugin_state: Arc::new(Vec::new()),
            authority_spec: AuthoritySpec::RemoteAgent(ssh("h")),
            stable_id: None,
        },
    );
    editor.dive_into_dormant(WindowId(6), seed("d", 95), None);
    assert_eq!(editor.active_window, WindowId(6));
    assert!(editor.windows[&6].documents.metadata[&95].read_only);
    assert_eq!(status(&editor, 6).unwrap(), "Connecting to ssh:h…");
    assert!(editor
        .take_effects()
        .iter()
        .any(|e| matches!(e, Effect::Connect { .. })));
    editor.config.runtime = false;
    editor.show_dormant_failure(WindowId(6), seed("d", 96));
    assert_eq!(
        status(&editor, 6).unwrap(),
        "Connection failed: async runtime not available"
    );
    assert!(matches!(
        editor.windows[&6].ui.remote_reconnect_error.as_deref(),
        Some(Rejection::RemoteRuntimeMissing)
    ));
}

#[test]
fn sessions_without_a_window_are_listed_too() {
    let mut editor = editor();
    editor.windows.get_mut(&2).unwrap().plugin_state = Arc::new(vec![
        StateEntry {
            plugin: "orchestrator".to_string(),
            key: "project_path".to_string(),
            value: StateValue::Text("/project".to_string()),
        },
        StateEntry {
            plugin: "orchestrator".to_string(),
            key: "shared_worktree".to_string(),
            value: StateValue::Flag(true),
        },
    ]);
    for id in [0u64, 2] {
        editor.dormant_remote.insert(
            id,
            DormantRemote {
                label: "remote".to_string(),
                root: root("/r"),
                project_path: Some("/rp".to_string()),
                shared_worktree: false,
                plugin_state: Arc::new(Vec::new()),
                authority_spec: AuthoritySpec::RemoteAgent(ssh("h")),
                stable_id: None,
            },
        );
    }
    let infos = editor.list_sessions(None, &TextMap::new());
    let rows: Vec<(u64, &str, &str, bool)> = infos
        .iter()
        .map(|w| {
            (
                w.id.0,
                w.label.as_str(),
                w.project_path.as_str(),
                w.shared_worktree,
            )
        })
        .collect();
    assert_eq!(
        rows,
        vec![
            (0, "remote", "/rp", false),
            (1, "w1", "/p1", false),
            (2, "w2", "/project", true)
        ]
    );
    assert!(infos[0].remote.is_some());
    assert!(!infos[0].remote.as_ref().unwrap().connected);
    let mut spellings = TextMap::new();
    spellings.insert("/project".to_string(), "/Project".to_string());
    spellings.insert("/r".to_string(), "/R".to_string());
    let infos = editor.list_sessions(None, &spellings);
    assert_eq!(infos[0].root, "/R");
    assert_eq!(infos[0].project_path, "/rp");
    assert_eq!(infos[2].root, "/p2");
    assert_eq!(infos[2].project_path, "/Project");
}
