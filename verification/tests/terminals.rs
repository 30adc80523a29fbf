use std::sync::Arc;

use fresh_editor::artifacts::{rollback_terminal_artifacts, MoveDecision, Relocation};
use fresh_editor::authority::{Authority, AuthoritySpec, TrustLevel, WorkspaceRoot};
use fresh_editor::command::{Payload, TerminalRequest};
use fresh_editor::documents::{
    BufferContent, BufferMetadata, BufferState, DisplayFlags, EventLog, SavedDiff, Viewport,
};
use fresh_editor::editor::{Editor, EditorConfig};
use fresh_editor::effects::{CallbackOwner, Effect, PluginResponse, TerminalTicket};
use fresh_editor::extraction_run::ExtractionOutcome;
use fresh_editor::extraction_steps::PrepareStep;
use fresh_editor::geometry::Rect;
use fresh_editor::ids::{AuthorityStamp, BufferId, TerminalId, WindowId};
use fresh_editor::mouse::MouseButton;
use fresh_editor::process_group::ProcessGroupEntry;
use fresh_editor::terminal_create::StartedTerminal;
use fresh_editor::terminal_grid::{terminal_grid_byte_at, GridLine, GridRow, GridTarget};
use fresh_editor::terminal_mouse::{
    KeyModifiers, MouseEvent, MouseEventKind, TerminalMouseButton, TerminalMouseEventKind,
    TerminalMouseForwarding,
};
use fresh_editor::terminal_window::{
    describe_creation_error, describe_publication_error, list_rollback_failures,
};
use fresh_editor::terminals::Terminal;
use fresh_editor::window::{SplitArea, StateValue, Window};
use fresh_editor::windows::{ScratchBuffer, WindowSeed};

fn root(path: &str) -> Arc<WorkspaceRoot> {
    Arc::new(WorkspaceRoot {
        path: path.to_string(),
        quoted: format!("{:?}", path),
        canonical: path.to_string(),
        name: path.trim_start_matches('/').to_string(),
        absolute: path.starts_with('/'),
    })
}

fn authority(stamp: u64) -> Authority {
    Authority {
        stamp: AuthorityStamp(stamp),
        display_label: String::new(),
        trust: TrustLevel::Trusted,
        env_active: false,
        remote: None,
        scope: None,
    }
}

fn buffer_state(text: &str) -> BufferState {
    BufferState {
        content: BufferContent {
            bytes: text.as_bytes().to_vec(),
            grapheme_starts: Vec::new(),
            path: None,
            modified: false,
            line_count: Some(1),
            language: "text".to_string(),
            primary_cursor_line: 0,
            saved_diff: Arc::new(SavedDiff {
                equal: true,
                byte_ranges: Vec::new(),
            }),
            text_properties: Arc::new(Vec::new()),
        },
        flags: DisplayFlags {
            line_numbers: true,
            show_cursors: true,
            cursor_visibility_locked: false,
            editing_disabled: false,
            indentation_guide_override: None,
            scrollable: true,
            interactive_widget_panel: false,
        },
        popups: Vec::new(),
    }
}

fn metadata(name: &str) -> BufferMetadata {
    BufferMetadata {
        display_name: name.to_string(),
        file_path: None,
        is_virtual: false,
        is_preview: false,
        hidden_from_tabs: false,
        auto_revert_enabled: true,
        synthetic_placeholder: false,
        read_only: false,
    }
}

fn window(id: u64, buffer: u64, text: &str) -> Window {
    let mut window = Window::new(
        WindowId(id),
        format!("w{}", id),
        root(&format!("/p{}", id)),
        format!("id-{}", id),
        authority(100 + id),
        80,
        24,
    );
    window.seed(
        BufferId(buffer),
        buffer_state(text),
        metadata("scratch"),
        EventLog { events: Vec::new() },
    );
    window
}

fn config() -> EditorConfig {
    EditorConfig {
        animations: true,
        auto_create_empty_buffer: true,
        runtime: true,
        bridge: true,
        terminal_width: 80,
        terminal_height: 24,
    }
}

/// An editor with the windows 1 (in the foreground) and 2.
fn editor() -> Editor {
    let mut editor = Editor::new(config(), window(1, 11, "one\ntwo\n"), None);
    editor.windows.insert(2, window(2, 22, "other"));
    editor.next_window_id = 3;
    editor.plugins.active_instances.insert(7);
    editor
}

fn terminal(pid: u32) -> Terminal {
    Terminal {
        alive: true,
        pid: Some(pid),
        wants_mouse: true,
        wants_mouse_motion: false,
        alternate_screen: false,
        companion: None,
        cwd: None,
    }
}

fn seed(stable_id: &str, buffer: u64) -> WindowSeed {
    WindowSeed {
        stable_id: stable_id.to_string(),
        authority: authority(500),
        scratch: ScratchBuffer {
            buffer: BufferId(buffer),
            state: buffer_state(""),
            metadata: metadata("[No Name]"),
            log: EventLog { events: Vec::new() },
        },
    }
}

fn request() -> TerminalRequest {
    TerminalRequest {
        cwd: None,
        command: Some(Arc::new(vec!["agent".to_string()])),
        relaunch: None,
        title: Some(String::new()),
        resume: Some(Arc::new(vec!["agent".to_string(), "-r".to_string()])),
        env: Payload("{}".to_string()),
        companion: None,
        allow_script: false,
        selected_agent: true,
    }
}

fn started() -> StartedTerminal {
    StartedTerminal {
        terminal: TerminalId(3),
        buffer: BufferId(33),
        split: None,
        pid: Some(42),
        script_access: false,
    }
}

fn only(editor: &mut Editor) -> Effect {
    let mut effects = editor.take_effects();
    assert_eq!(effects.len(), 1, "{:?}", effects);
    effects.remove(0)
}

#[test]
fn a_window_is_published_with_its_terminal() {
    let mut editor = editor();
    let plan = editor.create_window_with_terminal(
        root("/new"),
        "new".to_string(),
        "id-new".to_string(),
        authority(900),
        request(),
        true,
        &"orchestrator".to_string(),
        vec![("k".to_string(), StateValue::Flag(true))],
    );
    assert_eq!(plan.id, WindowId(3));
    assert_eq!(plan.previous, WindowId(1));
    assert_eq!(plan.restore_command[0], "agent");
    assert_eq!(plan.terminal.cwd, Some("/new".to_string()));
    assert_eq!(plan.terminal.title, None);
    assert_eq!(plan.placement.direction, None);
    assert!(plan.placement.focus && !plan.placement.persistent);
    assert_eq!(editor.active_window, WindowId(3));
    assert_eq!(editor.windows[&3].plugin_state[0].plugin, "orchestrator");
    editor.terminal_window_started(&plan, started());
    {
        let tables = &editor.windows[&3].terminals;
        assert_eq!(tables.tracked_agent, Some(TerminalId(3)));
        assert_eq!(tables.commands[&3][0], "agent");
        assert_eq!(tables.resume_commands[&3].len(), 2);
        assert_eq!(tables.process_groups.entries()[0].leader_pid, 42);
    }
    editor.take_effects();
    assert!(editor.terminal_window_saved(plan, BufferId(33), true));
    let effects = editor.take_effects();
    assert!(effects
        .iter()
        .any(|e| matches!(e, Effect::AdoptAuthority { .. })));
    assert!(effects.iter().any(|e| matches!(e, Effect::PromptTrust)));
    assert!(effects.iter().any(|e| matches!(e, Effect::Relayout)));
    assert_eq!(editor.active_window, WindowId(3));
    editor.answer_terminal_window(
        CallbackOwner::Host,
        6,
        Ok((WindowId(3), TerminalId(3), BufferId(33))),
    );
    assert!(matches!(
        only(&mut editor),
        Effect::Respond(PluginResponse::WindowWithTerminalCreated { request_id: 6, .. })
    ));
    editor.answer_terminal_window(CallbackOwner::Host, 6, Err("no pty".to_string()));
    match only(&mut editor) {
        Effect::Reject { reason, .. } => {
            assert_eq!(reason.text(), "createWindowWithTerminal: no pty")
        }
        other => panic!("{:?}", other),
    }
}

#[test]
fn a_window_in_the_background_leaves_the_foreground_alone() {
    let mut editor = editor();
    let plan = editor.create_window_with_terminal(
        root("/new"),
        "new".to_string(),
        "id-new".to_string(),
        authority(900),
        request(),
        false,
        &"orchestrator".to_string(),
        Vec::new(),
    );
    assert_eq!(editor.active_window, WindowId(3));
    editor.terminal_window_started(&plan, started());
    assert_eq!(editor.active_window, WindowId(1));
    editor.take_effects();
    assert!(editor.terminal_window_saved(plan, BufferId(33), true));
    assert_eq!(editor.active_window, WindowId(1));
    assert!(!editor
        .take_effects()
        .iter()
        .any(|e| matches!(e, Effect::PromptTrust | Effect::AdoptAuthority { .. })));
}

#[test]
fn a_window_that_cannot_be_saved_is_taken_back() {
    let mut editor = editor();
    let plan = editor.create_window_with_terminal(
        root("/new"),
        "new".to_string(),
        "id-new".to_string(),
        authority(900),
        request(),
        true,
        &"orchestrator".to_string(),
        Vec::new(),
    );
    editor
        .windows
        .get_mut(&3)
        .unwrap()
        .terminals
        .live
        .insert(3, terminal(42));
    editor.terminal_window_started(&plan, started());
    editor.take_effects();
    assert!(!editor.terminal_window_saved(plan, BufferId(33), false));
    assert!(!editor.has_window(WindowId(3)));
    assert_eq!(editor.active_window, WindowId(1));
    let effects = editor.take_effects();
    assert!(effects.iter().any(|e| matches!(
        e,
        Effect::KillGroups { targets } if targets.len() == 1 && targets[0].leader_pid == 42
    )));
    assert!(matches!(
        effects.last(),
        Some(Effect::DiscardWorkspace { stable_id, .. }) if stable_id == "id-new"
    ));
}

#[test]
fn failures_of_a_rollback_are_listed() {
    let entry = || ProcessGroupEntry {
        leader_pid: 42,
        label: "terminal #3".to_string(),
        incarnation: 1,
    };
    let failures = list_rollback_failures(
        &vec![(entry(), Ok(true)), (entry(), Err("denied".to_string()))],
        Some("s".to_string()),
        Some("a".to_string()),
    );
    assert_eq!(failures.len(), 3);
    assert!(failures[0].ends_with("denied"));
    assert_eq!(failures[1], "failed to remove workspace snapshot: s");
    assert_eq!(failures[2], "failed to remove terminal artifacts: a");
    let rest = vec![failures[1].clone(), failures[2].clone()];
    assert_eq!(
        describe_creation_error("e", &rest),
        "e; rollback failures: failed to remove workspace snapshot: s; \
         failed to remove terminal artifacts: a"
    );
    assert_eq!(describe_creation_error("e", &Vec::new()), "e");
    assert_eq!(
        describe_publication_error("e", &Vec::new()),
        "failed to publish new workspace: e"
    );
}

#[test]
fn a_terminal_that_cannot_be_started_is_reported() {
    let mut editor = editor();
    let ticket = || TerminalTicket {
        owner: CallbackOwner::Host,
        request_id: 4,
        window: WindowId(1),
        previous_active_buffer: None,
        restore_command: None,
        resume: None,
        selected_agent: false,
    };
    editor.terminal_environment_failed(ticket(), "no token".to_string());
    match only(&mut editor) {
        Effect::Reject { reason, .. } => assert_eq!(reason.text(), "createTerminal: no token"),
        other => panic!("{:?}", other),
    }
    editor.terminal_start_failed(ticket(), "no pty".to_string());
    match only(&mut editor) {
        Effect::Reject { reason, .. } => {
            assert_eq!(reason.text(), "Failed to create terminal: no pty")
        }
        other => panic!("{:?}", other),
    }
}

#[test]
fn a_remote_window_holds_its_connection() {
    let mut editor = editor();
    editor.create_remote_session_window(WindowId(2), AuthoritySpec::Local);
    assert!(editor.remote.keepalives.contains(&2));
    assert!(matches!(
        editor.windows[&2].authority_spec,
        AuthoritySpec::Local
    ));
}

#[test]
fn a_window_gets_something_to_show_once() {
    let mut editor = editor();
    let scratch = seed("x", 90).scratch;
    assert!(!editor.install_fresh_layout(WindowId(1), scratch));
    editor.windows.insert(
        5,
        Window::new(
            WindowId(5),
            "w5".to_string(),
            root("/p5"),
            "id-5".to_string(),
            authority(105),
            80,
            24,
        ),
    );
    assert!(editor.install_fresh_layout(WindowId(5), seed("x", 90).scratch));
    assert!(editor.windows[&5].documents.buffers.contains_key(&90));
    assert!(editor.windows[&5].documents.layout.is_some());
    assert!(!editor.install_fresh_layout(WindowId(9), seed("x", 91).scratch));
}

#[test]
fn a_detached_buffer_is_in_no_window() {
    let mut editor = editor();
    let state = editor.detach_buffer_from_all_windows(BufferId(22)).unwrap();
    assert_eq!(state.content.bytes, b"other".to_vec());
    assert!(!editor.windows[&2].documents.buffers.contains_key(&22));
    assert!(editor.detach_buffer_from_all_windows(BufferId(22)).is_none());
}

#[test]
fn a_terminal_goes_back_with_its_tab() {
    let mut editor = editor();
    {
        let tables = &mut editor.windows.get_mut(&1).unwrap().terminals;
        tables.live.insert(3, terminal(30));
        tables.bindings.insert(11, TerminalId(3));
        tables.backing_files.insert(3, "s/b".to_string());
    }
    let plan = editor.open_extraction_window(WindowId(1), BufferId(11), seed("new", 90));
    let target = plan.target;
    let relocations = vec![Relocation {
        source: "s/b".to_string(),
        destination: "t/b".to_string(),
        after_source_cutover: false,
    }];
    assert!(editor.move_terminal_machinery_to_window(
        WindowId(1),
        target,
        BufferId(11),
        TerminalId(3),
        TerminalId(8),
        &relocations,
        PrepareStep::Prepared
    ));
    editor.move_buffer_membership_between_windows(BufferId(11), WindowId(1), target);
    assert!(!editor.windows[&1].documents.buffers.contains_key(&11));
    assert_eq!(
        editor.terminal_tab_name(target, BufferId(11), None),
        "scratch"
    );
    assert_eq!(
        editor.terminal_tab_name(target, BufferId(99), Some("f".to_string())),
        "f"
    );
    assert_eq!(
        editor.terminal_tab_name(target, BufferId(99), None),
        "[No Name]"
    );
    let mut files = rollback_terminal_artifacts(1);
    assert_eq!(files.inspect(true, false), MoveDecision::InPlace);
    assert!(editor.rollback_terminal_extraction_live(
        plan,
        TerminalId(8),
        TerminalId(3),
        &relocations,
        &files
    ));
    let source = &editor.windows[&1];
    assert!(source.documents.buffers.contains_key(&11));
    assert_eq!(source.terminals.bindings[&11], TerminalId(3));
    assert_eq!(source.terminals.backing_files[&3], "s/b");
}

#[test]
fn the_user_hears_how_an_extraction_went() {
    let status = |editor: &Editor, window: u64| {
        editor.windows[&window]
            .ui
            .status_message
            .as_ref()
            .and_then(|n| n.text())
    };
    let mut editor = editor();
    editor.finish_terminal_extraction(
        WindowId(2),
        BufferId(22),
        ExtractionOutcome::Pending,
        "t".to_string(),
    );
    assert_eq!(editor.active_window, WindowId(2));
    assert_eq!(
        status(&editor, 2).unwrap(),
        "Terminal extraction is pending durable recovery; do not close either session"
    );
    let effects = editor.take_effects();
    assert!(effects.iter().any(|e| matches!(
        e,
        Effect::SetActiveBuffer {
            buffer: BufferId(22)
        }
    )));
    assert!(effects.iter().any(|e| matches!(e, Effect::ResizeTerminals)));
    editor.finish_terminal_extraction(
        WindowId(9),
        BufferId(22),
        ExtractionOutcome::RolledBack,
        "t".to_string(),
    );
    assert_eq!(
        status(&editor, 2).unwrap(),
        "Terminal extraction could not be committed and was rolled back"
    );
}

fn terminal_window() -> Window {
    let mut window = window(1, 11, "");
    window.terminals.live.insert(3, terminal(30));
    window.terminals.bindings.insert(11, TerminalId(3));
    window.focused_terminal_live = true;
    let split = window.documents.layout.as_ref().unwrap().active_split;
    window.split_areas.push(SplitArea {
        split,
        buffer: BufferId(11),
        content_rect: Rect::new(10, 5, 20, 10),
    });
    window
}

#[test]
fn a_grid_drops_into_scrollback_once() {
    let mut window = terminal_window();
    let split = window.documents.layout.as_ref().unwrap().active_split;
    assert!(!window.split_terminal_scrollback(split, BufferId(11)));
    assert!(window.scrollback_link_probe(12, 6).is_none());
    assert_eq!(
        window.drop_terminal_grid_into_selection_scrollback(split, BufferId(11)),
        Some(Rect::new(10, 5, 20, 10))
    );
    assert!(window.split_terminal_scrollback(split, BufferId(11)));
    assert_eq!(
        window.drop_terminal_grid_into_selection_scrollback(split, BufferId(11)),
        None
    );
    window.focused_terminal_live = false;
    assert!(window.scrollback_link_probe(12, 6).is_some());
    assert!(window.scrollback_link_probe(0, 0).is_none());
    assert!(window.scroll_live_terminal_at_position(12, 6).is_none());
    window.focused_terminal_live = true;
    assert_eq!(
        window.scroll_live_terminal_at_position(12, 6),
        Some(TerminalId(3))
    );
}

#[test]
fn a_single_gesture_is_given_up() {
    let mut window = terminal_window();
    window.try_forward_mouse_to_terminal(
        12,
        6,
        MouseEvent {
            kind: MouseEventKind::Down(MouseButton::Left),
            column: 12,
            row: 6,
            modifiers: KeyModifiers::none(),
        },
        TerminalMouseForwarding::Requested,
    );
    let report = window
        .cancel_mouse_gesture(MouseButton::Left, 13, 7)
        .unwrap();
    assert_eq!(
        report.kind,
        TerminalMouseEventKind::Up(TerminalMouseButton::Left)
    );
    assert!(window
        .cancel_mouse_gesture(MouseButton::Left, 13, 7)
        .is_none());
}

#[test]
fn cells_of_a_grid_stand_for_positions() {
    let mut viewport = Viewport {
        top_byte: 0,
        top_view_line_offset: 1,
        left_column: 2,
        width: 20,
        height: 10,
        line_wrap_enabled: false,
        grid_wrap: true,
    };
    let lines = vec![GridLine {
        start: 10,
        trimmed_len: 6,
        row_count: 2,
        rows: vec![
            GridRow {
                visual_width: 4,
                start_byte: Some(0),
                column_bytes: vec![Some(0), Some(1), Some(2), Some(3)],
            },
            GridRow {
                visual_width: 2,
                start_byte: Some(4),
                column_bytes: vec![Some(4), Some(5)],
            },
        ],
    }];
    let rect = Rect::new(10, 5, 20, 10);
    assert_eq!(
        terminal_grid_byte_at(&viewport, 7, &lines, 99, rect, 13, 8),
        Some(GridTarget::LineColumn { line: 10, column: 5 })
    );
    viewport.line_wrap_enabled = true;
    viewport.left_column = 0;
    assert_eq!(
        terminal_grid_byte_at(&viewport, 7, &lines, 99, rect, 11, 5),
        Some(GridTarget::Byte(15))
    );
    assert_eq!(
        terminal_grid_byte_at(&viewport, 7, &lines, 99, rect, 11, 6),
        Some(GridTarget::Byte(99))
    );
    assert_eq!(
        terminal_grid_byte_at(&viewport, 7, &lines, 99, Rect::new(0, 0, 0, 0), 1, 1),
        None
    );
}
