use std::sync::Arc;

use fresh_editor::action_run::{ActionAnswer, ActionCall};
use fresh_editor::authority::{
    Authority, AuthoritySpec, IdentityClaim, RemoteAgentSpec, RemoteTransport, TrustLevel,
    WorkspaceRoot,
};
use fresh_editor::command::{
    ActionPopupAction, ActionSpec, PanelArgument, Payload, PluginCommandContext,
    PluginLoadProvenance, TerminalRequest, TrustedBuiltinPlugin, VirtualBufferDisplay,
    VirtualBufferRequest,
};
use fresh_editor::documents::{
    BufferContent, BufferMetadata, BufferState, DisplayFlags, EventLog, Popup, PopupFrame, PopupPosition,
    PopupResolver,
    SavedDiff, TabTarget,
};
use fresh_editor::editor::{Editor, EditorConfig};
use fresh_editor::effects::{
    CallbackOwner, Effect, PluginResponse, ProcessRequest, RemoteAttachMode, RemoteAttachOwner,
    Reply, SignalName, VirtualPlace,
};
use fresh_editor::floating::{FloatingOptions, PanelPlacement, PanelSlot, RenderedPanel};
use fresh_editor::geometry::Rect;
use fresh_editor::ids::{
    AuthorityStamp, BufferId, JsCallbackId, LeafId, PluginInstanceId, SplitId, TerminalId,
    WindowId, WindowTerminalId,
};
use fresh_editor::json::text_json;
use fresh_editor::mouse::MouseButton;
use fresh_editor::notice::{Notice, Rejection, SpawnOperation};
use fresh_editor::plugin_lifecycle::{
    list_commands, list_plugins, CommandListing, InitOutcome, PluginListing,
};
use fresh_editor::plugin_path::{deepest_existing, without_verbatim_prefix, Ancestor};
use fresh_editor::process_group::Signaller;
use fresh_editor::processes::{fetch_outcome, reported_exit_code};
use fresh_editor::queries::CompositeCursor;
use fresh_editor::snapshot::{
    view_mode_name, EditorStateSnapshot, GlobalState, GrammarCatalog, Marker, SnapshotSources,
};
use fresh_editor::terminal_create::StartedTerminal;
use fresh_editor::terminal_grid::{
    character_column, find_wrapped_position, row_text_at, scrollback_line_at, GridCell, GridLine,
    GridRow,
};
use fresh_editor::terminal_life::name_signal;
use fresh_editor::terminal_mouse::{
    CapturedMouseRoute, KeyModifiers, MouseEvent, MouseEventKind, TerminalMouseButton,
    TerminalMouseEventKind, TerminalMouseForwarding,
};
use fresh_editor::terminals::{Companion, Terminal};
use fresh_editor::text_map::TextMap;
use fresh_editor::widgets::{PanelKey, Widget, WidgetInstanceState, WidgetKind, WidgetMutation};
use fresh_editor::window::{Prompt, SplitArea, Window};
use fresh_editor::windows::{ScratchBuffer, WindowSeed};

fn root(path: &str) -> Arc<WorkspaceRoot> {
    Arc::new(WorkspaceRoot {
        path: path.to_string(),
        quoted: format!("{:?}", path),
        canonical: path.to_string(),
        name: path.trim_start_matches('/').to_string(),
        absolute: path.starts_with('/'),
    })
}

fn authority(stamp: u64) -> Authority {
    Authority {
        stamp: AuthorityStamp(stamp),
        display_label: String::new(),
        trust: TrustLevel::Trusted,
        env_active: false,
        remote: None,
        scope: None,
    }
}

fn buffer_state(text: &str) -> BufferState {
    BufferState {
        content: BufferContent {
            bytes: text.as_bytes().to_vec(),
            grapheme_starts: Vec::new(),
            path: None,
            modified: false,
            line_count: Some(1),
            language: "text".to_string(),
            primary_cursor_line: 0,
            saved_diff: Arc::new(SavedDiff {
                equal: true,
                byte_ranges: Vec::new(),
            }),
            text_properties: Arc::new(Vec::new()),
        },
        flags: DisplayFlags {
            line_numbers: true,
            show_cursors: true,
            cursor_visibility_locked: false,
            editing_disabled: false,
            indentation_guide_override: None,
            scrollable: true,
            interactive_widget_panel: false,
        },
        popups: Vec::new(),
    }
}

fn metadata(name: &str) -> BufferMetadata {
    BufferMetadata {
        display_name: name.to_string(),
        file_path: None,
        is_virtual: false,
        is_preview: false,
        hidden_from_tabs: false,
        auto_revert_enabled: true,
        synthetic_placeholder: false,
        read_only: false,
    }
}

fn window(id: u64, buffer: u64, text: &str) -> Window {
    let mut window = Window::new(
        WindowId(id),
        format!("w{}", id),
        root(&format!("/p{}", id)),
        format!("id-{}", id),
        authority(100 + id),
        80,
        24,
    );
    window.seed(
        BufferId(buffer),
        buffer_state(text),
        metadata("scratch"),
        EventLog { events: Vec::new() },
    );
    window
}

fn config() -> EditorConfig {
    EditorConfig {
        animations: true,
        auto_create_empty_buffer: true,
        runtime: true,
        bridge: true,
        terminal_width: 80,
        terminal_height: 24,
    }
}

/// An editor with the windows 1 (in the foreground) and 2.
fn editor() -> Editor {
    let mut editor = Editor::new(config(), window(1, 11, "one\ntwo\n"), None);
    editor.windows.insert(2, window(2, 22, "other"));
    editor.next_window_id = 3;
    editor.plugins.active_instances.insert(7);
    editor
}

fn only(editor: &mut Editor) -> Effect {
    let mut effects = editor.take_effects();
    assert_eq!(effects.len(), 1, "{:?}", effects);
    effects.remove(0)
}

fn reply(editor: &mut Editor) -> String {
    match only(editor) {
        Effect::Resolve { reply, .. } => reply.json(),
        other => panic!("{:?}", other),
    }
}

fn refusal(editor: &mut Editor) -> String {
    match only(editor) {
        Effect::Reject { reason, .. } => reason.text(),
        other => panic!("{:?}", other),
    }
}

fn status(editor: &Editor, window: u64) -> Option<String> {
    editor.windows[&window]
        .ui
        .status_message
        .as_ref()
        .and_then(|n| n.text())
}

fn orchestrator() -> PluginCommandContext {
    PluginCommandContext {
        plugin_name: "orchestrator".to_string(),
        plugin_instance_id: PluginInstanceId(7),
        provenance: PluginLoadProvenance::Bundled,
        trusted_builtin: Some(TrustedBuiltinPlugin::Orchestrator),
        source_window: Some(WindowId(1)),
        ..PluginCommandContext::default()
    }
}

fn user() -> PluginCommandContext {
    PluginCommandContext {
        plugin_name: "user".to_string(),
        plugin_instance_id: PluginInstanceId(7),
        provenance: PluginLoadProvenance::User,
        source_window: Some(WindowId(1)),
        ..PluginCommandContext::default()
    }
}

fn seed(stable_id: &str, buffer: u64) -> WindowSeed {
    WindowSeed {
        stable_id: stable_id.to_string(),
        authority: authority(500),
        scratch: ScratchBuffer {
            buffer: BufferId(buffer),
            state: buffer_state(""),
            metadata: metadata("[No Name]"),
            log: EventLog { events: Vec::new() },
        },
    }
}

fn terminal(pid: u32) -> Terminal {
    Terminal {
        alive: true,
        pid: Some(pid),
        wants_mouse: true,
        wants_mouse_motion: false,
        alternate_screen: false,
        companion: None,
        cwd: None,
    }
}

fn sources() -> SnapshotSources {
    SnapshotSources {
        grammars: GrammarCatalog {
            generation: 3,
            grammars: Arc::new(vec!["rust".to_string()]),
        },
        clipboard: "clip".to_string(),
        detected_env: "{}".to_string(),
        config: Arc::new("{}".to_string()),
        user_config: Arc::new("{}".to_string()),
        global_state: vec![GlobalState {
            plugin: "p".to_string(),
            values: vec![("k".to_string(), Arc::new("1".to_string()))],
        }],
        spellings: TextMap::new(),
    }
}

fn active_layout(editor: &Editor) -> &fresh_editor::documents::SplitLayout {
    editor.windows[&1].documents.layout.as_ref().unwrap()
}

#[test]
fn replies_are_json() {
    assert_eq!(Reply::Null.json(), "null");
    assert_eq!(Reply::Flag(true).json(), "true");
    assert_eq!(Reply::Flag(false).json(), "false");
    assert_eq!(Reply::Number(Some(120)).json(), "120");
    assert_eq!(Reply::Number(None).json(), "null");
    assert_eq!(Reply::Json("[1]".to_string()).json(), "[1]");
    assert_eq!(
        Reply::Window {
            window: WindowId(5),
            stable_id: "a\"b".to_string()
        }
        .json(),
        "{\"stableId\":\"a\\\"b\",\"windowId\":5}"
    );
    assert_eq!(
        Reply::VirtualBuffer {
            buffer: BufferId(4),
            split: Some(LeafId(SplitId(2)))
        }
        .json(),
        "{\"bufferId\":4,\"splitId\":2}"
    );
    assert_eq!(
        Reply::VirtualBuffer {
            buffer: BufferId(4),
            split: None
        }
        .json(),
        "{\"bufferId\":4,\"splitId\":null}"
    );
    assert_eq!(text_json("a\n\"b\""), "\"a\\n\\\"b\\\"\"");
    assert_eq!(
        text_json("\u{8}\t\u{c}\r\u{1f}\u{0}\\/\u{7f}\u{e9}"),
        "\"\\b\\t\\f\\r\\u001f\\u0000\\\\/\u{7f}\u{e9}\""
    );
}

#[test]
fn text_is_read_as_far_as_it_goes() {
    let mut editor = editor();
    editor.handle_get_buffer_text(BufferId(11), 4, 99, 3);
    match only(&mut editor) {
        Effect::ResolveText { callback, text } => {
            assert_eq!(callback, JsCallbackId(3));
            assert_eq!(text, b"two\n".to_vec());
        }
        other => panic!("{:?}", other),
    }
    editor.handle_get_buffer_text(BufferId(99), 0, 1, 3);
    assert_eq!(refusal(&mut editor), "Buffer BufferId(99) not found");
}

#[test]
fn lines_are_located() {
    let mut editor = editor();
    editor.handle_get_line_start_position(BufferId(0), 1, 1);
    assert_eq!(reply(&mut editor), "4");
    editor.handle_get_line_end_position(BufferId(11), 1, 1);
    assert_eq!(reply(&mut editor), "7");
    editor.handle_get_line_start_position(BufferId(11), 9, 1);
    assert_eq!(reply(&mut editor), "null");
    editor.handle_get_buffer_line_count(BufferId(11), 1);
    assert_eq!(reply(&mut editor), "2");
    editor.handle_get_buffer_line_count(BufferId(99), 1);
    assert_eq!(reply(&mut editor), "null");
}

#[test]
fn scrolling_centers_a_line() {
    let mut editor = editor();
    editor.handle_scroll_to_line_center(SplitId(0), BufferId(0), 100);
    let leaf = active_layout(&editor).active_split;
    match only(&mut editor) {
        Effect::ScrollSplit {
            buffer,
            split,
            line,
        } => {
            assert_eq!((buffer, split, line), (BufferId(11), leaf, 88));
        }
        other => panic!("{:?}", other),
    }
    editor.handle_scroll_to_line_center(SplitId(0), BufferId(0), 3);
    assert!(matches!(
        only(&mut editor),
        Effect::ScrollSplit { line: 0, .. }
    ));
    editor.handle_scroll_to_line_center(SplitId(77), BufferId(0), 3);
    assert!(editor.take_effects().is_empty());
    editor.handle_scroll_buffer_to_line(BufferId(11), 5);
    assert!(matches!(
        only(&mut editor),
        Effect::ScrollBuffer { line: 5, splits, .. } if splits == vec![leaf]
    ));
    editor.handle_scroll_buffer_to_line(BufferId(22), 5);
    assert!(editor.take_effects().is_empty());
    editor.handle_composite_hunk(BufferId(11), true);
    assert!(matches!(
        only(&mut editor),
        Effect::CompositeHunk { forward: true, .. }
    ));
}

#[test]
fn splits_are_found_by_their_labels() {
    let mut editor = editor();
    let leaf = active_layout(&editor).active_split;
    editor.handle_set_split_label(leaf.0, Some("main".to_string()));
    editor.handle_get_split_by_label("main", 1);
    assert_eq!(reply(&mut editor), format!("{}", leaf.0 .0));
    editor.handle_set_split_label(leaf.0, None);
    editor.handle_get_split_by_label("main", 1);
    assert_eq!(reply(&mut editor), "null");
}

#[test]
fn a_plugin_takes_over_the_cursors() {
    let mut editor = editor();
    editor.handle_set_buffer_show_cursors(BufferId(11), false);
    let flags = editor.windows[&1].documents.buffers[&11].flags;
    assert!(!flags.show_cursors);
    assert!(flags.cursor_visibility_locked);
    editor.handle_set_buffer_show_cursors(BufferId(99), false);
    assert!(editor.take_effects().is_empty());
}

#[test]
fn files_are_saved_marked_and_followed() {
    let mut editor = editor();
    editor.handle_save_buffer_to_path(BufferId(99), "/x".to_string());
    assert_eq!(status(&editor, 1).unwrap(), "Buffer BufferId(99) not found");
    editor.save_failed("disk full".to_string());
    assert_eq!(status(&editor, 1).unwrap(), "Error saving: disk full");
    editor.handle_save_buffer_to_path(BufferId(11), "/x".to_string());
    assert!(matches!(only(&mut editor), Effect::SaveBuffer { .. }));
    {
        let documents = &mut editor.windows.get_mut(&1).unwrap().documents;
        documents.metadata.get_mut(&11).unwrap().file_path = Some("/f".to_string());
        documents.buffers.get_mut(&11).unwrap().content.path = Some("/f".to_string());
    }
    editor.handle_mark_buffer_read_only("/f");
    assert!(matches!(
        only(&mut editor),
        Effect::MarkReadOnly {
            buffer: BufferId(11)
        }
    ));
    editor.handle_mark_buffer_read_only("/g");
    assert!(editor.take_effects().is_empty());
    editor.handle_refresh_buffer_from_disk(BufferId(0), 4);
    assert!(matches!(only(&mut editor), Effect::StatBuffer { .. }));
    editor.buffer_stat_known(BufferId(11), 4, Some(20));
    assert!(matches!(
        only(&mut editor),
        Effect::ExtendBuffer { size: 20, .. }
    ));
    editor.buffer_extended(BufferId(11), 4);
    assert_eq!(reply(&mut editor), "8");
    editor.buffer_stat_known(BufferId(11), 4, Some(2));
    assert_eq!(reply(&mut editor), "8");
    editor.buffer_stat_known(BufferId(11), 4, None);
    assert_eq!(reply(&mut editor), "null");
    editor.handle_refresh_buffer_from_disk(BufferId(99), 4);
    assert_eq!(reply(&mut editor), "null");
}

#[test]
fn a_streamed_file_has_no_tab() {
    let mut editor = editor();
    editor.streaming_file_opened(3, Some(BufferId(11)));
    assert_eq!(reply(&mut editor), "11");
    let metadata = &editor.windows[&1].documents.metadata[&11];
    assert!(metadata.hidden_from_tabs);
    assert!(!metadata.auto_revert_enabled);
    let layout = active_layout(&editor);
    assert!(layout.view_states[&layout.active_split.0 .0]
        .open_buffers
        .is_empty());
    editor.streaming_file_opened(3, None);
    assert_eq!(reply(&mut editor), "null");
}

#[test]
fn prompts_are_changed_where_there_is_one() {
    let mut editor = editor();
    editor.handle_set_prompt_status("s".to_string());
    assert!(editor.windows[&1].ui.prompt.is_none());
    editor.windows.get_mut(&1).unwrap().ui.prompt = Some(Prompt {
        sync_input_on_navigate: false,
        title: Vec::new(),
        footer: Vec::new(),
        toolbar: None,
        status: String::new(),
        suggestion_count: 0,
        selected_suggestion: None,
    });
    editor.handle_set_prompt_input_sync(true);
    editor.handle_set_prompt_title(vec!["t".to_string()]);
    editor.handle_set_prompt_footer(vec!["f".to_string()]);
    editor.handle_set_prompt_toolbar(Some("b".to_string()));
    editor.handle_set_prompt_status("s".to_string());
    editor.handle_set_prompt_selected_index(4);
    {
        let prompt = editor.windows[&1].ui.prompt.as_ref().unwrap();
        assert!(prompt.sync_input_on_navigate);
        assert_eq!(prompt.title, vec!["t".to_string()]);
        assert_eq!(prompt.footer, vec!["f".to_string()]);
        assert_eq!(prompt.toolbar, Some("b".to_string()));
        assert_eq!(prompt.status, "s");
        assert_eq!(prompt.selected_suggestion, None);
    }
    editor
        .windows
        .get_mut(&1)
        .unwrap()
        .ui
        .prompt
        .as_mut()
        .unwrap()
        .suggestion_count = 3;
    editor.handle_set_prompt_selected_index(4);
    assert_eq!(
        editor.windows[&1]
            .ui
            .prompt
            .as_ref()
            .unwrap()
            .selected_suggestion,
        Some(2)
    );
}

#[test]
fn captured_keys_go_to_whoever_waits() {
    let mut editor = editor();
    editor.handle_await_next_key(JsCallbackId(1));
    assert!(editor.take_effects().is_empty());
    assert_eq!(
        editor.windows[&1].ui.pending_key_callbacks,
        vec![JsCallbackId(1)]
    );
    editor.handle_set_key_capture_active(true);
    editor
        .windows
        .get_mut(&1)
        .unwrap()
        .ui
        .pending_keys
        .extend(["{\"key\":\"a\"}".to_string(), "{}".to_string()]);
    editor.handle_await_next_key(JsCallbackId(2));
    assert_eq!(reply(&mut editor), "{\"key\":\"a\"}");
    editor.handle_set_key_capture_active(false);
    assert!(editor.windows[&1].ui.pending_keys.is_empty());
}

#[test]
fn modes_contexts_and_menus_are_set() {
    let mut editor = editor();
    editor.handle_set_editor_mode(Some("vi".to_string()));
    editor.handle_set_context("a".to_string(), true);
    editor.handle_set_context("a".to_string(), true);
    editor.handle_set_context("b".to_string(), true);
    editor.handle_set_context("a".to_string(), false);
    editor.handle_set_review_diff_hunks(vec!["h".to_string()]);
    assert_eq!(
        editor.windows[&1].ui.custom_contexts,
        vec!["b".to_string()]
    );
    assert_eq!(editor.windows[&1].ui.editor_mode, Some("vi".to_string()));
    assert_eq!(editor.windows[&1].ui.review_hunks.len(), 1);
    let rows = |n: &str| vec![n.to_string()];
    editor.handle_set_lsp_menu_contributions("p".to_string(), "rust".to_string(), rows("1"));
    editor.handle_set_lsp_menu_contributions("q".to_string(), "rust".to_string(), rows("2"));
    editor.handle_set_lsp_menu_contributions("p".to_string(), "rust".to_string(), rows("3"));
    assert_eq!(editor.windows[&1].ui.lsp_menu.len(), 2);
    editor.handle_set_lsp_menu_contributions("q".to_string(), "rust".to_string(), Vec::new());
    assert_eq!(editor.windows[&1].ui.lsp_menu.len(), 1);
    assert_eq!(editor.windows[&1].ui.lsp_menu[0].items, rows("3"));
    assert_eq!(editor.take_effects().len(), 4);
    editor.handle_register_lsp_uri_scheme("jdt".to_string());
    editor.handle_register_lsp_uri_scheme("jdt".to_string());
    assert_eq!(editor.lsp_uri_schemes.len(), 1);
}

#[test]
fn coupled_splits_are_set_up_once() {
    let mut editor = editor();
    assert!(editor.handle_create_scroll_sync_group(1, SplitId(2), SplitId(3)));
    assert!(!editor.handle_create_scroll_sync_group(1, SplitId(4), SplitId(5)));
    editor.handle_set_scroll_sync_anchors(1, vec![(0, 0), (5, 9)]);
    editor.handle_set_scroll_sync_anchors(2, vec![(1, 1)]);
    let group = &editor.windows[&1].ui.scroll_sync_groups[&1];
    assert_eq!((group.left_split, group.right_split), (2, 3));
    assert_eq!(group.anchors, vec![(0, 0), (5, 9)]);
    editor.handle_remove_scroll_sync_group(1);
    assert!(editor.windows[&1].ui.scroll_sync_groups.is_empty());
}

#[test]
fn macros_repeat_known_actions() {
    let mut editor = editor();
    let spec = |name: &str, count: u32| ActionSpec {
        action: name.to_string(),
        count,
        args: vec![("k".to_string(), "v".to_string())],
    };
    let steps = vec![spec("a", 2), spec("unknown", 3), spec("b", 0)];
    editor.handle_define_macro("q!", &steps, &vec![true, false, true]);
    let recorded = &editor.windows[&1].ui.macros[&(u64::from('q'))];
    let names: Vec<&str> = recorded.iter().map(|s| s.action.as_str()).collect();
    assert_eq!(names, vec!["a", "a", "b"]);
    assert_eq!(recorded[0].args.len(), 1);
    editor.handle_define_macro("", &steps, &vec![true, true, true]);
    assert_eq!(editor.windows[&1].ui.macros.len(), 1);
    editor.handle_play_macro_by_register("q!");
    assert!(matches!(
        only(&mut editor),
        Effect::PlayMacro { register: 'q' }
    ));
    editor.handle_play_macro_by_register("");
    assert!(editor.take_effects().is_empty());
    editor.handle_execute_action("save".to_string());
    assert!(matches!(
        only(&mut editor),
        Effect::RunActions { run } if run.action(0).unwrap().count == 1 && run.action(1).is_none()
    ));
}

#[test]
fn actions_run_up_to_the_first_failure() {
    let mut editor = editor();
    let spec = |name: &str, count: u32| ActionSpec {
        action: name.to_string(),
        count,
        args: Vec::new(),
    };
    let mut play = |names: Vec<ActionSpec>, unknown: &str, fails_at: usize| {
        editor.handle_execute_actions(names);
        let mut run = match only(&mut editor) {
            Effect::RunActions { run } => run,
            other => panic!("{:?}", other),
        };
        let mut ran: Vec<String> = Vec::new();
        let mut answer = None;
        loop {
            answer = match run.next(answer) {
                ActionCall::Over => return ran,
                ActionCall::Look(at) if run.action(at).unwrap().action == unknown => {
                    Some(ActionAnswer::Unknown)
                }
                ActionCall::Look(_) => Some(ActionAnswer::Known),
                ActionCall::Run(at) => {
                    ran.push(run.action(at).unwrap().action.clone());
                    if ran.len() == fails_at {
                        Some(ActionAnswer::Failed)
                    } else {
                        Some(ActionAnswer::Ran)
                    }
                }
            };
        }
    };
    let list = || {
        vec![
            spec("d", 3),
            spec("workspace_trust_trust", 1),
            spec("never", 0),
            spec("w", 2),
            spec("workspace_trust_block", 2),
            spec("x", 1),
        ]
    };
    assert_eq!(play(list(), "", 0), vec!["d", "d", "d", "w", "w", "x"]);
    assert_eq!(play(list(), "never", 0), vec!["d", "d", "d"]);
    assert_eq!(play(list(), "w", 0), vec!["d", "d", "d"]);
    assert_eq!(play(list(), "", 2), vec!["d", "d"]);
    assert_eq!(
        play(list(), "workspace_trust_trust", 5),
        vec!["d", "d", "d", "w", "w"]
    );
    assert!(play(Vec::new(), "", 0).is_empty());
}

#[test]
fn a_popup_is_replaced_under_its_id() {
    let mut editor = editor();
    let show = |editor: &mut Editor, id: &str, title: &str, buffer: Option<u64>| {
        editor.handle_show_action_popup(
            id.to_string(),
            title.to_string(),
            "m".to_string(),
            vec![ActionPopupAction {
                id: "yes".to_string(),
                label: "Yes".to_string(),
            }],
            buffer.map(BufferId),
        );
    };
    editor
        .windows
        .get_mut(&1)
        .unwrap()
        .documents
        .buffers
        .get_mut(&11)
        .unwrap()
        .popups
        .push(Popup {
            title: "servers".to_string(),
            description: String::new(),
            items: Vec::new(),
            selected: 0,
            transient: true,
            frame: PopupFrame {
                position: PopupPosition::AtCursor,
                width: 10,
                max_height: 5,
                bordered: false,
            },
            resolver: PopupResolver::LspStatus,
        });
    show(&mut editor, "a", "one", None);
    assert!(editor.windows[&1].documents.buffers[&11].popups.is_empty());
    show(&mut editor, "b", "two", None);
    show(&mut editor, "a", "three", None);
    let titles: Vec<&str> = editor
        .global_popups
        .iter()
        .map(|p| p.title.as_str())
        .collect();
    assert_eq!(titles, vec!["three", "two"]);
    assert_eq!(editor.global_popups[0].items[0].text, "Yes");
    assert_eq!(editor.global_popups[0].items[0].data, "yes");
    assert_eq!(editor.global_popups[0].selected, 0);
    assert!(!editor.global_popups[0].transient);
    let frame = editor.global_popups[0].frame;
    assert_eq!(frame.position, PopupPosition::BottomRight);
    assert_eq!((frame.width, frame.max_height, frame.bordered), (60, 15, true));
    show(&mut editor, "c", "scoped", Some(22));
    assert_eq!(editor.windows[&2].documents.buffers[&22].popups.len(), 1);
    show(&mut editor, "c", "again", Some(22));
    assert_eq!(
        editor.windows[&2].documents.buffers[&22].popups[0].title,
        "again"
    );
    show(&mut editor, "d", "lost", Some(99));
    assert_eq!(editor.global_popups.len(), 3);
}

#[test]
fn processes_are_killed_by_their_own_window() {
    let mut editor = editor();
    editor.handle_spawn_process(
        WindowId(1),
        "ls".to_string(),
        Vec::new(),
        None,
        None,
        JsCallbackId(5),
    );
    match only(&mut editor) {
        Effect::Spawn { request, operation } => {
            assert_eq!(operation, SpawnOperation::Process);
            assert_eq!(request.process_id, 5);
            assert_eq!(request.cwd, Some("/p1".to_string()));
        }
        other => panic!("{:?}", other),
    }
    editor.handle_kill_host_process(WindowId(2), 5);
    assert!(editor.take_effects().is_empty());
    editor.handle_kill_host_process(WindowId(1), 5);
    assert!(matches!(
        only(&mut editor),
        Effect::KillProcess { process_id: 5 }
    ));
    editor.handle_kill_host_process(WindowId(1), 5);
    assert!(editor.take_effects().is_empty());
    editor.handle_spawn_background_process(
        WindowId(2),
        8,
        "watch".to_string(),
        Vec::new(),
        Some("/tmp".to_string()),
        JsCallbackId(6),
    );
    assert!(matches!(only(&mut editor), Effect::Spawn { .. }));
    editor.handle_kill_background_process(WindowId(1), 8);
    assert!(editor.take_effects().is_empty());
    editor.handle_kill_background_process(WindowId(2), 8);
    assert!(matches!(
        only(&mut editor),
        Effect::AbortBackground { process_id: 8 }
    ));
}

#[test]
fn processes_that_cannot_be_started_are_rejected() {
    let mut editor = editor();
    editor.handle_spawn_process(
        WindowId(9),
        "ls".to_string(),
        Vec::new(),
        None,
        None,
        JsCallbackId(5),
    );
    assert_eq!(
        refusal(&mut editor),
        "spawnProcess: window 9 is no longer available"
    );
    editor.handle_spawn_process_wait(WindowId(1), 4, JsCallbackId(5));
    assert_eq!(
        refusal(&mut editor),
        "SpawnProcessWait is not implemented for window 1 process 4"
    );
    editor.config.runtime = false;
    editor.handle_spawn_host_process(
        WindowId(1),
        "ls".to_string(),
        Vec::new(),
        None,
        JsCallbackId(5),
    );
    assert_eq!(refusal(&mut editor), "Async runtime not available");
    editor.handle_http_fetch("u".to_string(), "t".to_string(), JsCallbackId(5));
    assert_eq!(refusal(&mut editor), "Async runtime not available");
    editor.handle_delay(JsCallbackId(5), 10);
    let effects = editor.take_effects();
    assert!(matches!(effects[0], Effect::Sleep { duration_ms: 10 }));
    assert!(matches!(
        effects[1],
        Effect::Resolve {
            reply: Reply::Null,
            ..
        }
    ));
}

#[test]
fn trust_decides_on_host_processes() {
    let mut editor = editor();
    editor.handle_spawn_host_process(
        WindowId(1),
        "./run".to_string(),
        Vec::new(),
        None,
        JsCallbackId(5),
    );
    let request: ProcessRequest = match only(&mut editor) {
        Effect::CheckTrust { request } => request,
        other => panic!("{:?}", other),
    };
    assert!(editor.processes.host.is_empty());
    editor.host_process_checked(request, Some("blocked".to_string()));
    match only(&mut editor) {
        Effect::ProcessOutput {
            process_id,
            outcome,
        } => {
            assert_eq!(process_id, 5);
            assert_eq!(outcome.stderr, "blocked");
            assert_eq!(outcome.exit_code, -1);
        }
        other => panic!("{:?}", other),
    }
    editor.handle_spawn_host_process(
        WindowId(1),
        "ls".to_string(),
        Vec::new(),
        None,
        JsCallbackId(6),
    );
    let request = match only(&mut editor) {
        Effect::CheckTrust { request } => request,
        other => panic!("{:?}", other),
    };
    editor.host_process_checked(request, None);
    assert_eq!(editor.processes.host[&6], WindowId(1));
}

#[test]
fn downloads_report_their_status() {
    let ok = fetch_outcome(Ok(204));
    assert_eq!((ok.stderr.as_str(), ok.exit_code), ("", 0));
    let missing = fetch_outcome(Ok(404));
    assert_eq!(
        (missing.stderr.as_str(), missing.exit_code),
        ("HTTP 404", 404)
    );
    let failed = fetch_outcome(Err("no route".to_string()));
    assert_eq!((failed.stderr.as_str(), failed.exit_code), ("no route", -1));
    assert_eq!(reported_exit_code(Some(3)), 3);
    assert_eq!(reported_exit_code(None), -1);
}

#[test]
fn companions_are_reached_by_the_orchestrator() {
    let mut editor = editor();
    {
        let tables = &mut editor.windows.get_mut(&1).unwrap().terminals;
        let mut handle = terminal(30);
        handle.companion = Some(Companion::Omp);
        tables.live.insert(3, handle);
        tables.companions.insert(3, Companion::Omp);
    }
    let id = WindowTerminalId::new(WindowId(1), TerminalId(3));
    editor.handle_send_omp_companion_command(id, Payload("{}".to_string()), 4, &user());
    assert_eq!(reply(&mut editor), "false");
    editor.handle_send_omp_companion_command(id, Payload("{}".to_string()), 4, &orchestrator());
    assert!(matches!(
        only(&mut editor),
        Effect::SendCompanionCommand { .. }
    ));
    editor.handle_send_terminal_input(id, "ls\n".to_string());
    assert!(matches!(only(&mut editor), Effect::WriteTerminal { .. }));
    let gone = WindowTerminalId::new(WindowId(1), TerminalId(9));
    editor.handle_send_terminal_input(gone, "ls\n".to_string());
    assert!(editor.take_effects().is_empty());
    editor.handle_send_omp_companion_command(gone, Payload("{}".to_string()), 4, &orchestrator());
    assert_eq!(reply(&mut editor), "false");
}

#[test]
fn paths_are_watched_on_this_machine_only() {
    let mut editor = editor();
    editor.handle_watch_path("/p1/a".to_string(), true, 3, &user());
    match only(&mut editor) {
        Effect::Watch { owner, .. } => {
            assert_eq!(owner.window, WindowId(1));
            assert_eq!(owner.authority, AuthorityStamp(101));
            assert_eq!(owner.instance, Some(PluginInstanceId(7)));
        }
        other => panic!("{:?}", other),
    }
    editor.handle_unwatch_path(4, &user());
    assert!(matches!(
        only(&mut editor),
        Effect::Unwatch { handle: 4, .. }
    ));
    let reason = |editor: &mut Editor| match only(editor) {
        Effect::Respond(PluginResponse::WatchPathRejected { reason, .. }) => reason.text(),
        other => panic!("{:?}", other),
    };
    let mut closed = user();
    closed.source_window = Some(WindowId(9));
    editor.handle_watch_path("/x".to_string(), true, 3, &closed);
    assert_eq!(reason(&mut editor), "watchPath source window is closed");
    editor.config.bridge = false;
    editor.handle_watch_path("/x".to_string(), true, 3, &user());
    assert_eq!(
        reason(&mut editor),
        "watchPath: no async bridge — file watching is unavailable in this build"
    );
    editor.windows.get_mut(&1).unwrap().authority_spec = AuthoritySpec::RemoteAgent(ssh("h"));
    editor.handle_watch_path("/x".to_string(), true, 3, &user());
    assert_eq!(
        reason(&mut editor),
        "watchPath is unavailable for remote authorities; refusing to reinterpret a remote path on the host"
    );
}

#[test]
fn environments_need_trust() {
    let mut editor = editor();
    editor.handle_set_env(WindowId(1), "x".to_string(), None);
    assert_eq!(editor.take_effects().len(), 2);
    assert!(editor.windows[&1].authority.env_active);
    editor.handle_clear_env(WindowId(1));
    assert_eq!(editor.take_effects().len(), 2);
    editor.handle_clear_env(WindowId(1));
    assert_eq!(editor.take_effects().len(), 1);
    editor.windows.get_mut(&2).unwrap().authority.trust = TrustLevel::Restricted;
    editor.handle_set_env(WindowId(2), "x".to_string(), None);
    assert_eq!(
        status(&editor, 2).unwrap(),
        "Workspace not trusted — cannot activate environment"
    );
    editor.handle_set_env(WindowId(9), "x".to_string(), None);
    assert!(editor.take_effects().is_empty());
}

fn ssh(host: &str) -> Arc<RemoteAgentSpec> {
    Arc::new(RemoteAgentSpec {
        transport: RemoteTransport::Ssh {
            user: Some("me".to_string()),
            host: host.to_string(),
            port: Some(2222),
            identity_file: None,
            remote_path: None,
            extra_args: Vec::new(),
        },
        identity: IdentityClaim::Absent,
        window: true,
        label: None,
        command: None,
    })
}

#[test]
fn a_remote_session_is_described_in_json() {
    let mut editor = editor();
    let attach = |editor: &mut Editor, window: u64, payload: &str| {
        editor.handle_attach_remote_agent(
            PluginInstanceId(7),
            "p".to_string(),
            WindowId(window),
            payload.to_string(),
            4,
        );
    };
    attach(&mut editor, 9, "{}");
    assert_eq!(refusal(&mut editor), "target window closed");
    attach(&mut editor, 1, "{\"initialState\":3}");
    assert_eq!(refusal(&mut editor), "initialState must be an object");
    attach(
        &mut editor,
        1,
        "{\"activate\":false,\"initialState\":{\"a\":[1,\"x\"]}}",
    );
    let request = match only(&mut editor) {
        Effect::ParseAttach { request } => request,
        other => panic!("{:?}", other),
    };
    assert!(!request.activate);
    let state = request.initial_state.as_ref().unwrap();
    assert_eq!(state.plugin, "p");
    assert_eq!(state.values.0, "{\"a\":[1,\"x\"]}");
    editor.attach_spec_parsed(request, Ok(ssh("host")));
    let effects = editor.take_effects();
    assert!(matches!(
        &effects[0],
        Effect::Connect {
            attempt: 1,
            mode: RemoteAttachMode::Window {
                activate: false,
                ..
            },
            ..
        }
    ));
    assert_eq!(
        status(&editor, 1).unwrap(),
        "Connecting to ssh:me@host:2222…"
    );
    attach(&mut editor, 1, "{}");
    let request = match only(&mut editor) {
        Effect::ParseAttach { request } => request,
        other => panic!("{:?}", other),
    };
    assert!(request.activate);
    assert!(request.initial_state.is_none());
    editor.attach_spec_parsed(request, Err("missing field".to_string()));
    assert_eq!(refusal(&mut editor), "invalid attach spec: missing field");
    attach(&mut editor, 1, "{\"activate\":\"no\",\"initialState\":null}");
    assert_eq!(refusal(&mut editor), "initialState must be an object");
}

#[test]
fn reading_the_fields_of_an_attach_is_separate() {
    let mut editor = editor();
    editor.attach_fields_read(
        PluginInstanceId(7),
        "p".to_string(),
        WindowId(1),
        "{}".to_string(),
        4,
        None,
        Some(None),
    );
    assert_eq!(refusal(&mut editor), "initialState must be an object");
}

#[test]
fn reconnects_are_made_once() {
    let mut editor = editor();
    editor.windows.get_mut(&2).unwrap().authority_spec = AuthoritySpec::RemoteAgent(ssh("h"));
    editor.force_reconnect_remote_session(WindowId(2));
    assert!(matches!(
        only(&mut editor),
        Effect::Connect { attempt: 1, .. }
    ));
    assert!(editor.remote_reconnect_inflight(WindowId(2)));
    editor.force_reconnect_remote_session(WindowId(2));
    assert!(editor.take_effects().is_empty());
    assert_eq!(
        editor.begin_remote_attach_attempt(RemoteAttachOwner::Reconnect {
            window: WindowId(2)
        }),
        None
    );
    editor.cancel_remote_reconnect(WindowId(2));
    assert!(matches!(
        only(&mut editor),
        Effect::CancelConnect { attempt: 1 }
    ));
    editor.remote.keepalives.insert(2);
    editor.reconnect_dormant_session_if_needed(WindowId(2));
    assert!(editor.take_effects().is_empty());
}

#[test]
fn backends_are_replaced_through_their_window() {
    let mut editor = editor();
    editor.remote.keepalives.insert(2);
    editor.authority_parsed(WindowId(2), Ok(Arc::new("{}".to_string())));
    assert_eq!(editor.active_window, WindowId(2));
    assert!(editor.remote.keepalives.is_empty());
    assert!(matches!(
        editor.windows[&2].authority_spec,
        AuthoritySpec::Plugin(_)
    ));
    assert!(matches!(
        only(&mut editor),
        Effect::InstallAuthority {
            window: WindowId(2),
            local: false
        }
    ));
    editor.handle_clear_authority(WindowId(2));
    assert!(matches!(
        only(&mut editor),
        Effect::InstallAuthority { local: true, .. }
    ));
    editor.authority_parsed(WindowId(1), Err("bad".to_string()));
    assert_eq!(status(&editor, 1).unwrap(), "setAuthority rejected: bad");
    editor.remote_indicator_parsed(WindowId(1), Ok("{}".to_string()));
    assert!(editor.windows[&1].ui.remote_indicator_override.is_some());
    editor.remote_indicator_parsed(WindowId(1), Err("bad".to_string()));
    assert_eq!(
        status(&editor, 1).unwrap(),
        "setRemoteIndicatorState rejected: bad"
    );
    editor.handle_clear_remote_indicator_state(WindowId(1));
    assert!(editor.windows[&1].ui.remote_indicator_override.is_none());
}

#[test]
fn the_root_of_a_language_server_is_a_uri() {
    let mut editor = editor();
    editor.handle_set_lsp_root_uri("rust".to_string(), "file:///a b".to_string());
    assert_eq!(
        status(&editor, 1).unwrap(),
        "Invalid LSP root URI: unexpected character at index 9"
    );
    editor.handle_set_lsp_root_uri("rust".to_string(), "file:///a".to_string());
    assert!(matches!(only(&mut editor), Effect::SetLspRoot { .. }));
    editor.lsp_root_set("rust".to_string(), true);
    assert_eq!(
        status(&editor, 1).unwrap(),
        "LSP root updated for rust (restarting server)"
    );
    editor.lsp_root_set("rust".to_string(), false);
    assert_eq!(status(&editor, 1).unwrap(), "LSP root set for rust");
    editor.lsp_root_checked(
        "rust".to_string(),
        "x".to_string(),
        Some("nope".to_string()),
    );
    assert_eq!(status(&editor, 1).unwrap(), "Invalid LSP root URI: nope");
}

#[test]
fn language_servers_are_stopped_and_restarted() {
    let mut editor = editor();
    editor.lsp_disabled("rust".to_string(), true);
    assert_eq!(status(&editor, 1).unwrap(), "LSP disabled for rust");
    editor.lsp_disabled("rust".to_string(), false);
    assert_eq!(
        status(&editor, 1).unwrap(),
        "LSP disabled for rust (config save failed)"
    );
    editor.take_effects();
    editor.handle_restart_lsp_for_language("rust".to_string());
    assert!(matches!(
        only(&mut editor),
        Effect::RestartLsp { file: None, .. }
    ));
    editor.lsp_restarted("rust".to_string(), Some((true, "restarted".to_string())));
    assert!(matches!(only(&mut editor), Effect::ReopenBuffers { .. }));
    assert_eq!(status(&editor, 1).unwrap(), "restarted");
    editor.lsp_restarted("rust".to_string(), None);
    assert_eq!(status(&editor, 1).unwrap(), "No LSP manager available");
}

#[test]
fn files_open_in_the_window_they_are_for() {
    let mut editor = editor();
    editor.handle_open_file_in_background_routed("/a".to_string(), Some(WindowId(2)));
    assert!(matches!(
        only(&mut editor),
        Effect::OpenFile {
            window: Some(WindowId(2)),
            ..
        }
    ));
    for target in [Some(WindowId(1)), Some(WindowId(9)), None] {
        editor.handle_open_file_in_background_routed("/a".to_string(), target);
        assert!(matches!(
            only(&mut editor),
            Effect::OpenFile { window: None, .. }
        ));
    }
    editor.handle_preview_window_in_rect(Some(WindowId(2)));
    assert_eq!(editor.preview_window_id, Some(WindowId(2)));
    editor.handle_preview_window_in_rect(Some(WindowId(1)));
    assert_eq!(editor.preview_window_id, None);
    editor.handle_reload_themes(Some("dark".to_string()));
    assert_eq!(editor.take_effects().len(), 2);
    editor.handle_create_window(root("relative"), "x".to_string());
    assert!(editor.take_effects().is_empty());
    editor.handle_create_window(root("/abs"), "x".to_string());
    assert!(matches!(only(&mut editor), Effect::OpenWindow { .. }));
}

#[test]
fn saved_windows_come_back() {
    let mut editor = editor();
    let restore = |editor: &mut Editor, path: &str, id: Option<&str>, by: &PluginCommandContext| {
        editor.handle_restore_workspace_window(
            root(path),
            "label".to_string(),
            id.map(|s| s.to_string()),
            true,
            JsCallbackId(4),
            by,
        );
    };
    restore(&mut editor, "/p2", Some("id-2"), &user());
    assert_eq!(
        refusal(&mut editor),
        "only the bundled unscoped Orchestrator may restore workspace windows"
    );
    restore(&mut editor, "p2", Some("id-2"), &orchestrator());
    assert_eq!(
        refusal(&mut editor),
        "workspace root must be absolute and stable id must be non-empty when present"
    );
    restore(&mut editor, "/p2", Some("id-2"), &orchestrator());
    assert_eq!(editor.active_window, WindowId(2));
    assert!(editor.take_effects().iter().any(|e| matches!(
        e,
        Effect::Resolve {
            reply: Reply::Window {
                window: WindowId(2),
                ..
            },
            ..
        }
    )));
    restore(&mut editor, "/p9", Some("id-9"), &orchestrator());
    let request = match only(&mut editor) {
        Effect::FindWorkspace { request } => request,
        other => panic!("{:?}", other),
    };
    editor.workspace_not_found(&request, None);
    assert_eq!(
        refusal(&mut editor),
        "the exact workspace persistence is missing"
    );
    let id = editor.workspace_found(request, seed("id-9", 90));
    assert_eq!(id, WindowId(3));
    let request = editor
        .take_effects()
        .into_iter()
        .find_map(|e| match e {
            Effect::RestoreWorkspace { request, .. } => Some(request),
            _ => None,
        })
        .unwrap();
    editor.workspace_restored(id, &request, Ok(false));
    assert!(!editor.has_window(id));
    assert!(editor.take_effects().iter().any(|e| matches!(
        e,
        Effect::Reject {
            reason: Rejection::PersistenceNotRestored,
            ..
        }
    )));
    editor.workspace_managed(CallbackOwner::Host, JsCallbackId(1), Ok(()));
    assert_eq!(reply(&mut editor), "null");
    editor.workspace_managed(CallbackOwner::Host, JsCallbackId(1), Err("e".to_string()));
    assert_eq!(refusal(&mut editor), "e");
}

#[test]
fn bundled_plugins_belong_to_the_host() {
    let mut editor = editor();
    editor.handle_unload_plugin("orchestrator".to_string(), JsCallbackId(1), &user());
    assert_eq!(
        refusal(&mut editor),
        "bundled built-in plugins may only be unloaded by the host"
    );
    editor.handle_reload_plugin("orchestrator".to_string(), JsCallbackId(1), &user());
    assert_eq!(
        refusal(&mut editor),
        "bundled built-in plugins may only be reloaded by the host"
    );
    editor.handle_unload_plugin("other".to_string(), JsCallbackId(1), &user());
    assert!(matches!(only(&mut editor), Effect::UnloadPlugin { .. }));
    editor.handle_reload_plugin(
        "orchestrator".to_string(),
        JsCallbackId(1),
        &PluginCommandContext::default(),
    );
    assert!(matches!(
        only(&mut editor),
        Effect::ReloadPlugin { bundled: true, .. }
    ));
    editor.bundled_integrity_failed(CallbackOwner::Host, JsCallbackId(1));
    assert_eq!(
        refusal(&mut editor),
        "bundled plugin integrity verification failed"
    );
    editor.plugin_operation_done(JsCallbackId(1), Ok(()));
    assert_eq!(reply(&mut editor), "true");
    editor.plugin_operation_done(JsCallbackId(1), Err("no".to_string()));
    assert_eq!(refusal(&mut editor), "no");
    let plugins = vec![
        PluginListing {
            name: "orchestrator".to_string(),
            path: "/secret".to_string(),
            enabled: true,
        },
        PluginListing {
            name: "mine".to_string(),
            path: "/mi\"ne.ts".to_string(),
            enabled: false,
        },
    ];
    let listed = "[{\"enabled\":true,\"name\":\"orchestrator\",\"path\":\"<bundled>\"},\
                  {\"enabled\":false,\"name\":\"mine\",\"path\":\"/mi\\\"ne.ts\"}]";
    assert_eq!(list_plugins(&plugins), listed);
    assert_eq!(list_plugins(&Vec::new()), "[]");
    editor.plugins_listed(JsCallbackId(1), &plugins);
    assert_eq!(reply(&mut editor), listed);
    let builtin = CommandListing {
        name: "Save".to_string(),
        description: String::new(),
        plugin: None,
    };
    assert_eq!(builtin.source(), ("builtin", String::new()));
    let commands = vec![
        builtin,
        CommandListing {
            name: "Go".to_string(),
            description: "d".to_string(),
            plugin: Some("p".to_string()),
        },
    ];
    let listed = "[{\"description\":\"\",\"name\":\"Save\",\"plugin\":\"\",\"source\":\"builtin\"},\
                  {\"description\":\"d\",\"name\":\"Go\",\"plugin\":\"p\",\"source\":\"plugin\"}]";
    assert_eq!(list_commands(&commands), listed);
    editor.editor_commands_listed(JsCallbackId(1), &commands);
    assert_eq!(reply(&mut editor), listed);
}

#[test]
fn commands_and_the_start_script_report_back() {
    let mut editor = editor();
    editor.editor_command_run("Save".to_string(), JsCallbackId(1), None);
    assert_eq!(
        refusal(&mut editor),
        "no registered command named 'Save' (list them with editor.listCommands() or `fresh --cmd command list`)"
    );
    editor.editor_command_run(
        "Save".to_string(),
        JsCallbackId(1),
        Some(Err("disk".to_string())),
    );
    assert_eq!(refusal(&mut editor), "command 'Save' failed: disk");
    editor.editor_command_run("Save".to_string(), JsCallbackId(1), Some(Ok(())));
    assert_eq!(reply(&mut editor), "true");
    editor.init_reloaded(JsCallbackId(1), InitOutcome::Loaded);
    assert_eq!(reply(&mut editor), "true");
    editor.init_reloaded(JsCallbackId(1), InitOutcome::NotFound);
    assert_eq!(reply(&mut editor), "false");
    editor.init_reloaded(JsCallbackId(1), InitOutcome::Disabled);
    assert_eq!(reply(&mut editor), "false");
    editor.init_reloaded(JsCallbackId(1), InitOutcome::Failed("syntax".to_string()));
    assert_eq!(refusal(&mut editor), "syntax");
}

#[test]
fn timers_fire_once_in_a_turn() {
    let mut editor = editor();
    editor.handle_set_plugin_timer(1, "p".to_string(), "once".to_string(), 10, false, 100);
    editor.handle_set_plugin_timer(2, "p".to_string(), "again".to_string(), 10, true, 100);
    editor.handle_set_plugin_timer(2, "p".to_string(), "again2".to_string(), 20, true, 100);
    editor.handle_set_plugin_timer(3, "p".to_string(), "never".to_string(), 5, true, 100);
    editor.handle_clear_plugin_timer(3);
    assert!(!editor.check_plugin_timers(109));
    assert!(editor.check_plugin_timers(120));
    let fired: Vec<String> = editor
        .take_effects()
        .into_iter()
        .map(|e| match e {
            Effect::RunTimer { handler, .. } => handler,
            other => panic!("{:?}", other),
        })
        .collect();
    assert_eq!(fired, vec!["once".to_string(), "again2".to_string()]);
    assert!(!editor.check_plugin_timers(120));
    assert_eq!(editor.plugins.timers.len(), 1);
    assert_eq!(editor.plugins.timers[0].next_fire_ms, 140);
}

#[test]
fn markers_follow_edits() {
    let mut editor = editor();
    let mut snapshot = EditorStateSnapshot::new();
    let markers = snapshot.markers.entry(11).or_default();
    markers.insert(1, Marker { start: 10, end: 20 });
    markers.insert(2, Marker { start: 2, end: 4 });
    editor.shared_snapshot = Some(snapshot);
    let at = |editor: &Editor, id: u64| {
        let m = editor.shared_snapshot.as_ref().unwrap().markers[&11][&id];
        (m.start, m.end)
    };
    editor.shift_plugin_markers_for_edit(BufferId(11), 10, 0, 5);
    assert_eq!(at(&editor, 1), (15, 25));
    assert_eq!(at(&editor, 2), (2, 4));
    editor.shift_plugin_markers_for_edit(BufferId(11), 10, 5, 0);
    assert_eq!(at(&editor, 1), (10, 20));
    editor.shift_plugin_markers_for_edit(BufferId(11), 20, 0, 5);
    assert_eq!(at(&editor, 1), (10, 20));
    editor.shift_plugin_markers_for_edit(BufferId(11), 5, 2, 6);
    assert_eq!(at(&editor, 1), (14, 24));
    editor.shift_plugin_markers_for_edit(BufferId(11), 12, 6, 1);
    assert_eq!(at(&editor, 1), (12, 19));
    editor.shift_plugin_markers_for_edit(BufferId(99), 0, 0, 9);
    assert_eq!(at(&editor, 1), (12, 19));
}

#[test]
fn the_shared_snapshot_follows_the_editor() {
    let mut editor = editor();
    let mut snapshot = EditorStateSnapshot::new();
    snapshot
        .markers
        .entry(11)
        .or_default()
        .insert(1, Marker { start: 0, end: 1 });
    snapshot
        .markers
        .entry(22)
        .or_default()
        .insert(1, Marker { start: 0, end: 1 });
    snapshot
        .markers
        .entry(99)
        .or_default()
        .insert(1, Marker { start: 0, end: 1 });
    snapshot.host_revision = u64::MAX;
    editor.shared_snapshot = Some(snapshot);
    {
        let window = editor.windows.get_mut(&1).unwrap();
        let layout = window.documents.layout.as_mut().unwrap();
        let split = layout.active_split.0 .0;
        let state = layout.view_states.get_mut(&split).unwrap();
        state.cursor.position = 4;
        state.cursor.anchor = Some(1);
        state.viewport.top_byte = 4;
        window.documents.buffers.get_mut(&11).unwrap().content.line_count = Some(3);
    }
    editor.update_plugin_state_snapshot(&sources());
    assert!(matches!(
        only(&mut editor),
        Effect::RebuildFilesystems {
            active: WindowId(1)
        }
    ));
    let shared = editor.shared_snapshot.as_ref().unwrap();
    assert_eq!(shared.host_revision, 0);
    let marked: Vec<u64> = shared.markers.keys().copied().collect();
    assert_eq!(marked, vec![11, 22]);
    assert_eq!(shared.active_buffer, BufferId(11));
    assert_eq!(shared.buffers[&11].length, 8);
    assert_eq!(shared.buffers[&11].name, "scratch");
    assert_eq!(view_mode_name(shared.buffers[&11].view_mode), "source");
    assert_eq!(shared.selected_text, Some(b"ne\n".to_vec()));
    let cursor = shared.primary_cursor.unwrap();
    assert_eq!((cursor.position, cursor.line), (4, Some(1)));
    assert_eq!(shared.viewport.unwrap().top_line, Some(1));
    assert_eq!(shared.cursor_positions[&11], 4);
    assert_eq!(shared.splits.len(), 1);
    assert_eq!(shared.working_dir, "/p1");
    assert_eq!(shared.windows.len(), 2);
    assert_eq!(
        shared
            .global_states
            .get("p")
            .and_then(|m| m.get("k"))
            .map(|v| v.as_str()),
        Some("1")
    );
    let mut private = EditorStateSnapshot::new();
    editor.update_private_snapshot(&mut private, Some(WindowId(1)), &sources());
    let marked: Vec<u64> = private.markers.keys().copied().collect();
    assert_eq!(marked, vec![11]);
    assert_eq!(private.windows.len(), 1);
    assert_eq!(private.host_revision, 0);
    assert!(editor.update_snapshot_for_window(WindowId(2), &mut private, None, &sources()));
    assert_eq!(private.active_window, WindowId(2));
    assert_eq!(editor.active_window, WindowId(1));
    let invocation = editor.plugin_invocation(WindowId(2), &sources()).unwrap();
    assert_eq!(invocation.authority, Some(AuthorityStamp(102)));
    assert!(editor.plugin_invocation(WindowId(9), &sources()).is_none());
    assert_eq!(
        editor.plugin_authority_stamp(WindowId(1)),
        Some(AuthorityStamp(101))
    );
}

fn request(name: &str) -> VirtualBufferRequest {
    VirtualBufferRequest {
        name: name.to_string(),
        mode: "m".to_string(),
        read_only: true,
        entries: Payload("[]".to_string()),
        display: VirtualBufferDisplay {
            show_line_numbers: false,
            show_cursors: false,
            editing_disabled: true,
        },
    }
}

fn make_virtual(editor: &mut Editor, buffer: u64) {
    let documents = &mut editor.windows.get_mut(&1).unwrap().documents;
    documents.buffers.insert(buffer, buffer_state("a\nb\n"));
    documents.metadata.insert(buffer, metadata("*v*"));
    let layout = documents.layout.as_mut().unwrap();
    let split = layout.active_split.0 .0;
    layout
        .view_states
        .get_mut(&split)
        .unwrap()
        .open_buffers
        .push(TabTarget::Buffer(BufferId(buffer)));
}

#[test]
fn a_virtual_buffer_gets_a_split_of_its_own() {
    let mut editor = editor();
    editor.handle_create_virtual_buffer_in_split(
        request("v"),
        0,
        Some("vertical".to_string()),
        Some("panel".to_string()),
        None,
        false,
        Some("utility_dock".to_string()),
        Some(false),
        Some(9),
    );
    let plan = match only(&mut editor) {
        Effect::CreateVirtualBuffer {
            detached: false,
            plan,
            ..
        } => plan,
        other => panic!("{:?}", other),
    };
    make_virtual(&mut editor, 40);
    editor.virtual_buffer_created(BufferId(40), &plan);
    let flags = editor.windows[&1].documents.buffers[&40].flags;
    assert!(flags.editing_disabled && !flags.scrollable && !flags.line_numbers);
    editor.virtual_buffer_filled(BufferId(40), plan);
    let fresh = match only(&mut editor) {
        Effect::SplitForBuffer { plan, .. } => plan,
        other => panic!("{:?}", other),
    };
    assert!(fresh.dock);
    let leaf = LeafId(SplitId(70));
    editor.virtual_split_made(BufferId(40), &fresh, Some(leaf), true);
    assert_eq!(reply(&mut editor), "{\"bufferId\":40,\"splitId\":70}");
    let layout = active_layout(&editor);
    assert_eq!(layout.active_split, leaf);
    assert_eq!(layout.utility_dock, Some(leaf));
    assert!(layout.view_states[&70].viewport.line_wrap_enabled);
    assert!(!layout.view_states[&70].keyed_states[&40].show_line_numbers);

    editor.handle_create_virtual_buffer_in_split(
        request("w"),
        0,
        None,
        None,
        None,
        false,
        Some("utility_dock".to_string()),
        None,
        Some(10),
    );
    let plan = match only(&mut editor) {
        Effect::CreateVirtualBuffer { plan, .. } => plan,
        other => panic!("{:?}", other),
    };
    assert!(matches!(plan.place, VirtualPlace::Dock { leaf: l, .. } if l == leaf));
    make_virtual(&mut editor, 41);
    editor.virtual_buffer_created(BufferId(41), &plan);
    editor.virtual_buffer_filled(BufferId(41), plan);
    let effects = editor.take_effects();
    assert!(matches!(effects[0], Effect::SetPaneBuffer { .. }));
    assert_eq!(effects.len(), 2);

    editor.handle_create_virtual_buffer_in_split(
        request("v"),
        0,
        None,
        Some("panel".to_string()),
        None,
        false,
        None,
        None,
        Some(11),
    );
    let effects = editor.take_effects();
    assert!(matches!(
        effects[0],
        Effect::SetVirtualContent {
            buffer: BufferId(40),
            ..
        }
    ));
    editor
        .windows
        .get_mut(&1)
        .unwrap()
        .documents
        .buffers
        .remove(&40);
    editor.handle_create_virtual_buffer_in_split(
        request("v"),
        0,
        None,
        Some("panel".to_string()),
        None,
        false,
        None,
        None,
        Some(12),
    );
    assert!(editor.windows[&1].documents.panel_ids.is_empty());
    assert!(matches!(
        only(&mut editor),
        Effect::CreateVirtualBuffer { .. }
    ));
}

#[test]
fn a_split_that_fails_shows_the_buffer_in_place() {
    let mut editor = editor();
    editor.handle_create_virtual_buffer_in_split(
        request("v"),
        0,
        None,
        None,
        Some(true),
        true,
        None,
        None,
        Some(9),
    );
    let plan = match only(&mut editor) {
        Effect::CreateVirtualBuffer { plan, .. } => plan,
        other => panic!("{:?}", other),
    };
    make_virtual(&mut editor, 40);
    editor.virtual_buffer_filled(BufferId(40), plan);
    let fresh = match only(&mut editor) {
        Effect::SplitForBuffer { plan, .. } => plan,
        other => panic!("{:?}", other),
    };
    editor.virtual_split_made(BufferId(40), &fresh, None, false);
    let effects = editor.take_effects();
    assert!(matches!(
        effects[0],
        Effect::SetActiveBuffer {
            buffer: BufferId(40)
        }
    ));
    assert!(matches!(
        effects[1],
        Effect::Resolve {
            reply: Reply::VirtualBuffer { split: None, .. },
            ..
        }
    ));
}

#[test]
fn a_hidden_virtual_buffer_does_not_steal_the_view() {
    let mut editor = editor();
    editor.handle_create_virtual_buffer_with_content(
        request("v"),
        true,
        Some(1),
        Some(true),
        Some(3),
    );
    let plan = match only(&mut editor) {
        Effect::CreateVirtualBuffer {
            detached: true,
            plan,
            ..
        } => plan,
        other => panic!("{:?}", other),
    };
    make_virtual(&mut editor, 40);
    editor.virtual_buffer_created(BufferId(40), &plan);
    assert!(editor.windows[&1].documents.metadata[&40].hidden_from_tabs);
    assert_eq!(
        editor.windows[&1].documents.buffers[&40]
            .flags
            .indentation_guide_override,
        Some(true)
    );
    editor.virtual_buffer_filled(BufferId(40), plan);
    let effects = editor.take_effects();
    assert!(matches!(
        effects[0],
        Effect::SetCursor { position: 2, .. }
    ));
    assert_eq!(effects.len(), 2);
    editor.handle_create_virtual_buffer_in_existing_split(
        request("v"),
        active_layout(&editor).active_split.0,
        Some(true),
        Some(9),
        Some(4),
    );
    let plan = match only(&mut editor) {
        Effect::CreateVirtualBuffer { plan, .. } => plan,
        other => panic!("{:?}", other),
    };
    editor.virtual_buffer_filled(BufferId(40), plan);
    let effects = editor.take_effects();
    let shown = active_layout(&editor).active_split;
    match &effects[1] {
        Effect::SetCursor {
            position, splits, ..
        } => {
            assert_eq!(*position, 4);
            assert_eq!(splits, &vec![shown]);
        }
        other => panic!("{:?}", other),
    }
    let layout = active_layout(&editor);
    let state = &layout.view_states[&layout.active_split.0 .0];
    assert_eq!(state.active_buffer, BufferId(40));
    assert!(state.viewport.line_wrap_enabled);
}

fn key(plugin: &str, panel_id: u64) -> PanelKey {
    PanelKey {
        plugin: plugin.to_string(),
        panel_id,
    }
}

fn rendered() -> RenderedPanel {
    RenderedPanel {
        widgets: vec![
            Widget {
                key: "toggle".to_string(),
                kind: WidgetKind::Toggle { checked: false },
            },
            Widget {
                key: "number".to_string(),
                kind: WidgetKind::Number {
                    min: Some(0),
                    max: Some(5),
                },
            },
            Widget {
                key: "choice".to_string(),
                kind: WidgetKind::Dropdown {
                    options: vec!["a".to_string(), "b".to_string()],
                },
            },
        ],
        states: TextMap::new(),
        focus_key: "toggle".to_string(),
    }
}

#[test]
fn widgets_change_one_at_a_time() {
    let mut editor = editor();
    editor.handle_mount_widget_panel(key("p", 1), BufferId(11), Payload("{}".to_string()));
    assert!(matches!(
        only(&mut editor),
        Effect::DrawWidgetPanel { fresh: true, .. }
    ));
    editor.widget_panel_drawn(
        key("p", 1),
        BufferId(11),
        rendered(),
        Payload("[]".to_string()),
    );
    assert!(
        editor.windows[&1].documents.buffers[&11]
            .flags
            .interactive_widget_panel
    );
    editor.widget_panel_drawn(
        key("q", 1),
        BufferId(22),
        rendered(),
        Payload("[]".to_string()),
    );
    editor.take_effects();
    editor.handle_widget_mutate(
        key("p", 1),
        WidgetMutation::SetNumber {
            widget_key: "number".to_string(),
            value: 99,
        },
    );
    assert!(matches!(only(&mut editor), Effect::RenderPanel { .. }));
    editor.handle_widget_mutate(
        key("p", 1),
        WidgetMutation::SetChecked {
            widget_key: "toggle".to_string(),
            checked: true,
        },
    );
    editor.handle_widget_mutate(
        key("p", 1),
        WidgetMutation::SetDropdown {
            widget_key: "choice".to_string(),
            index: 7,
        },
    );
    editor.take_effects();
    let panel = &editor.panels.panels[0];
    assert!(matches!(
        panel.states.get("number"),
        Some(WidgetInstanceState::Number { value: 5 })
    ));
    assert!(matches!(
        panel.states.get("choice"),
        Some(WidgetInstanceState::Dropdown {
            selected_index: 1,
            open: false
        })
    ));
    assert!(matches!(
        panel.widgets[0].kind,
        WidgetKind::Toggle { checked: true }
    ));
    let other = &editor.panels.panels[1];
    assert!(other.states.get("number").is_none());
    assert!(matches!(
        other.widgets[0].kind,
        WidgetKind::Toggle { checked: false }
    ));
    editor.handle_widget_mutate(
        key("p", 9),
        WidgetMutation::SetFocusKey {
            widget_key: "toggle".to_string(),
        },
    );
    assert!(editor.take_effects().is_empty());
    editor.handle_update_widget_panel(key("p", 1), Payload("{}".to_string()));
    assert!(matches!(
        only(&mut editor),
        Effect::DrawWidgetPanel { fresh: false, .. }
    ));
    editor.widget_panel_redrawn(&key("p", 1), rendered(), Payload("[]".to_string()));
    let effects = editor.take_effects();
    assert!(matches!(effects[0], Effect::SetVirtualContent { .. }));
    assert!(matches!(
        effects[1],
        Effect::FocusPanelCursor {
            buffer: BufferId(11)
        }
    ));
    editor.handle_update_widget_panel(key("p", 9), Payload("{}".to_string()));
    assert!(editor.take_effects().is_empty());
    editor.handle_unmount_widget_panel(&key("p", 1));
    assert_eq!(editor.panels.panels.len(), 1);
}

fn options(as_dock: bool) -> FloatingOptions {
    FloatingOptions {
        width_pct: 0,
        height_pct: 200,
        as_dock,
        focus_marker: true,
        title: Some("t".to_string()),
        closable: true,
        start_blurred: false,
    }
}

#[test]
fn a_modal_takes_the_keyboard_from_the_dock() {
    let mut editor = editor();
    editor.handle_mount_floating_widget(key("p", 1), options(true), Payload("{}".to_string()));
    let effects = editor.take_effects();
    assert!(matches!(effects[0], Effect::DrawFloatingPanel { .. }));
    assert!(matches!(effects[1], Effect::Relayout));
    let dock = editor.panels.dock.as_ref().unwrap();
    assert_eq!(dock.placement, PanelPlacement::LeftDock { width_cols: 32 });
    assert_eq!((dock.width_pct, dock.height_pct), (1, 100));
    assert!(dock.title.is_none() && !dock.closable && dock.focused);
    editor
        .windows
        .get_mut(&1)
        .unwrap()
        .mouse_state
        .start_mouse_gesture(MouseButton::Left);
    editor.handle_mount_floating_widget(key("p", 2), options(false), Payload("{}".to_string()));
    assert!(editor.windows[&1].mouse_state.gesture_captures.is_empty());
    assert!(!editor.panels.dock.as_ref().unwrap().focused);
    let effects = editor.take_effects();
    assert!(matches!(
        effects[0],
        Effect::BlurPanel {
            slot: PanelSlot::Dock
        }
    ));
    let arg = |columns: u16, packed: u64, nonzero: bool| PanelArgument {
        columns,
        packed_cell: packed,
        nonzero,
    };
    editor.handle_floating_panel_control(&key("p", 1), "dock_width", arg(5, 5, true));
    assert_eq!(
        editor.panels.dock.as_ref().unwrap().placement,
        PanelPlacement::LeftDock { width_cols: 10 }
    );
    assert!(matches!(only(&mut editor), Effect::Relayout));
    editor.handle_floating_panel_control(
        &key("p", 2),
        "anchor",
        arg(0, (7 << 16) | 3, true),
    );
    assert_eq!(
        editor.panels.floating.as_ref().unwrap().placement,
        PanelPlacement::Anchored { x: 3, y: 7 }
    );
    editor.handle_floating_panel_control(&key("p", 2), "unknown", arg(0, 0, false));
    editor.handle_floating_panel_control(&key("p", 9), "focus", arg(0, 0, false));
    assert!(editor.take_effects().is_empty());
    editor.handle_floating_panel_control(&key("p", 2), "blur", arg(0, 0, false));
    assert!(matches!(
        only(&mut editor),
        Effect::BlurPanel {
            slot: PanelSlot::Floating
        }
    ));
    editor.floating_panel_drawn(key("p", 1), BufferId(0), rendered());
    assert!(editor.floating_panel_redrawn(&key("p", 1), rendered()));
    assert!(!editor.floating_panel_redrawn(&key("p", 7), rendered()));
    editor.handle_update_floating_widget(key("p", 2), Payload("{}".to_string()));
    assert!(matches!(
        only(&mut editor),
        Effect::DrawFloatingPanel { fresh: false, .. }
    ));
    editor.handle_unmount_floating_widget(&key("p", 1));
    let effects = editor.take_effects();
    assert!(matches!(effects[0], Effect::FullRedraw));
    assert!(matches!(effects[1], Effect::Relayout));
    editor.handle_unmount_floating_widget(&key("p", 2));
    assert!(matches!(only(&mut editor), Effect::Relayout));
}

fn event(kind: MouseEventKind, column: u16, row: u16) -> MouseEvent {
    MouseEvent {
        kind,
        column,
        row,
        modifiers: KeyModifiers::none(),
    }
}

fn terminal_window() -> Window {
    let mut window = window(1, 11, "");
    window.terminals.live.insert(3, terminal(30));
    window.terminals.bindings.insert(11, TerminalId(3));
    window.focused_terminal_live = true;
    let split = window.documents.layout.as_ref().unwrap().active_split;
    window.split_areas.push(SplitArea {
        split,
        buffer: BufferId(11),
        content_rect: Rect::new(10, 5, 20, 10),
    });
    window
}

#[test]
fn a_press_belongs_to_its_terminal_until_it_is_released() {
    let mut window = terminal_window();
    let down = event(MouseEventKind::Down(MouseButton::Left), 12, 6);
    let report = window
        .try_forward_mouse_to_terminal(12, 6, down, TerminalMouseForwarding::Requested)
        .unwrap()
        .unwrap();
    assert_eq!((report.col, report.row), (2, 1));
    let drag = event(MouseEventKind::Drag(MouseButton::Left), 0, 99);
    match window.route_captured_mouse_event(&drag) {
        Some(CapturedMouseRoute::Terminal(Some(report))) => {
            assert_eq!((report.col, report.row), (0, 9));
            assert_eq!(
                report.kind,
                TerminalMouseEventKind::Drag(TerminalMouseButton::Left)
            );
        }
        other => panic!("{:?}", other),
    }
    let up = event(MouseEventKind::Up(MouseButton::Left), 12, 6);
    assert!(window.route_captured_mouse_event(&up).is_some());
    assert!(window.route_captured_mouse_event(&up).is_none());
    assert!(window.mouse_state.gesture_captures.is_empty());
}

#[test]
fn a_terminal_that_is_gone_gets_its_release() {
    let mut window = terminal_window();
    let down = event(MouseEventKind::Down(MouseButton::Right), 12, 6);
    window.try_forward_mouse_to_terminal(12, 6, down, TerminalMouseForwarding::Requested);
    window.split_areas.clear();
    let drag = event(MouseEventKind::Drag(MouseButton::Right), 13, 6);
    match window.route_captured_mouse_event(&drag) {
        Some(CapturedMouseRoute::Terminal(Some(report))) => {
            assert_eq!(
                report.kind,
                TerminalMouseEventKind::Up(TerminalMouseButton::Right)
            );
        }
        other => panic!("{:?}", other),
    }
    assert!(window.mouse_state.gesture_captures.is_empty());
}

#[test]
fn policies_decide_who_gets_the_mouse() {
    let mut window = terminal_window();
    let mut down = event(MouseEventKind::Down(MouseButton::Left), 12, 6);
    assert!(window
        .try_forward_mouse_to_terminal(12, 6, down, TerminalMouseForwarding::Never)
        .is_none());
    down.modifiers.shift = true;
    assert!(window
        .try_forward_mouse_to_terminal(12, 6, down, TerminalMouseForwarding::Requested)
        .is_none());
    down.modifiers.shift = false;
    down.modifiers.control = true;
    assert!(window
        .try_forward_mouse_to_terminal(12, 6, down, TerminalMouseForwarding::Requested)
        .is_none());
    assert!(window
        .try_forward_mouse_to_terminal(
            12,
            6,
            event(MouseEventKind::Moved, 12, 6),
            TerminalMouseForwarding::Requested
        )
        .is_none());
    assert!(window.terminal_wants_mouse(BufferId(11)));
    assert!(!window.terminal_wants_mouse_motion(BufferId(11)));
    assert!(!window.is_terminal_in_alternate_screen(BufferId(11)));
    assert!(!window.terminal_wants_mouse(BufferId(99)));
    window.try_forward_mouse_to_terminal(
        12,
        6,
        event(MouseEventKind::Down(MouseButton::Left), 12, 6),
        TerminalMouseForwarding::Requested,
    );
    let reports = window.cancel_terminal_mouse_gestures();
    assert_eq!(reports.len(), 1);
    assert!(window.cancel_terminal_mouse_gestures().is_empty());
    assert!(window.live_link_probe(12, 6).is_some());
    assert!(window.live_link_probe(0, 0).is_none());
}

#[test]
fn a_drag_over_a_grid_selects_both_cells() {
    let mut window = terminal_window();
    {
        let content = &mut window.documents.buffers.get_mut(&11).unwrap().content;
        content.bytes = b"abcdef\n".to_vec();
        content.grapheme_starts = vec![0, 1, 2, 3, 4, 5, 6];
    }
    let split = window.documents.layout.as_ref().unwrap().active_split;
    window.begin_terminal_grid_selection(split, BufferId(11), 1, 3);
    let cursor = window.documents.layout.as_ref().unwrap().view_states[&split.0 .0].cursor;
    assert_eq!((cursor.anchor, cursor.position), (Some(1), 4));
    window.begin_terminal_grid_selection(split, BufferId(11), 3, 1);
    let cursor = window.documents.layout.as_ref().unwrap().view_states[&split.0 .0].cursor;
    assert_eq!((cursor.anchor, cursor.position), (Some(4), 1));
    window.begin_terminal_grid_word_selection(split);
    assert_eq!(window.mouse_state.drag_selection_anchor, Some(1));
    assert_eq!(window.mouse_state.drag_selection_word_end, Some(4));
    window.arm_terminal_selection_publication(split);
    assert!(!window.mouse_state.drag_selection_by_words);
    window.place_terminal_grid_cursor(split, 2);
    let cursor = window.documents.layout.as_ref().unwrap().view_states[&split.0 .0].cursor;
    assert_eq!((cursor.anchor, cursor.position), (None, 2));
}

#[test]
fn rows_of_a_grid_map_to_bytes() {
    let lines = vec![
        GridLine {
            start: 0,
            trimmed_len: 6,
            row_count: 2,
            rows: vec![
                GridRow {
                    visual_width: 4,
                    start_byte: Some(0),
                    column_bytes: vec![Some(0), Some(1), Some(2), Some(3)],
                },
                GridRow {
                    visual_width: 2,
                    start_byte: Some(4),
                    column_bytes: vec![Some(4), Some(5)],
                },
            ],
        },
        GridLine {
            start: 7,
            trimmed_len: 1,
            row_count: 1,
            rows: vec![GridRow {
                visual_width: 1,
                start_byte: Some(0),
                column_bytes: vec![Some(0)],
            }],
        },
    ];
    assert_eq!(find_wrapped_position(&lines, 0, 2, 8), 2);
    assert_eq!(find_wrapped_position(&lines, 0, 9, 8), 4);
    assert_eq!(find_wrapped_position(&lines, 1, 1, 8), 5);
    assert_eq!(find_wrapped_position(&lines, 1, 9, 8), 6);
    assert_eq!(find_wrapped_position(&lines, 2, 0, 8), 7);
    assert_eq!(find_wrapped_position(&lines, 3, 0, 8), 8);
    assert_eq!(character_column("a\u{e9}b", 3), ("a\u{e9}b".to_string(), 2));
    assert_eq!(character_column("a\u{e9}b\n", 9), ("a\u{e9}b".to_string(), 3));
    assert_eq!(character_column("\u{20ac}\u{1f600}x", 2).1, 1);
    assert_eq!(character_column("\u{20ac}\u{1f600}x", 4).1, 2);
    assert_eq!(character_column("\u{20ac}\u{1f600}x", 7).1, 2);
    assert_eq!(character_column("\u{20ac}\u{1f600}x", 8).1, 3);
    assert_eq!(character_column("\n", 5), (String::new(), 0));
    assert_eq!(
        scrollback_line_at("a\u{e9}b\n".as_bytes(), 3),
        ("a\u{e9}b".to_string(), 2)
    );
    assert_eq!(
        scrollback_line_at(&[0xff, b'a'], 2),
        ("\u{fffd}a".to_string(), 1)
    );
    let cells = [
        GridCell { wide_spacer: false, zero_width: 0, text: "a".to_string() },
        GridCell { wide_spacer: false, zero_width: 0, text: "\u{e9}".to_string() },
        GridCell { wide_spacer: false, zero_width: 0, text: " ".to_string() },
    ];
    let (text, _) = row_text_at(&cells, 1);
    assert!(text.starts_with("a\u{e9}"));
}

fn terminal_request() -> TerminalRequest {
    TerminalRequest {
        cwd: None,
        command: Some(Arc::new(vec!["agent".to_string()])),
        relaunch: None,
        title: None,
        resume: None,
        env: Payload("{}".to_string()),
        companion: None,
        allow_script: false,
        selected_agent: true,
    }
}

#[test]
fn a_terminal_is_started_and_tracked() {
    let mut editor = editor();
    editor.handle_create_terminal(
        terminal_request(),
        None,
        None,
        None,
        true,
        WindowId(1),
        4,
        &user(),
    );
    assert_eq!(
        refusal(&mut editor),
        "createTerminal: privileged terminal options require the trusted bundled Orchestrator"
    );
    editor.handle_create_terminal(
        terminal_request(),
        Some("vertical".to_string()),
        None,
        None,
        true,
        WindowId(1),
        4,
        &orchestrator(),
    );
    let ticket = match only(&mut editor) {
        Effect::StartTerminal { ticket, .. } => ticket,
        other => panic!("{:?}", other),
    };
    let started = || StartedTerminal {
        terminal: TerminalId(3),
        buffer: BufferId(33),
        split: None,
        pid: Some(42),
        script_access: false,
    };
    editor.terminal_started(&ticket, started());
    let tables = &editor.windows[&1].terminals;
    assert_eq!(tables.tracked_agent, Some(TerminalId(3)));
    assert_eq!(tables.process_groups.entries()[0].label, "terminal #3");
    editor.take_effects();
    editor.terminal_saved(ticket, started(), Ok(()));
    assert!(editor.take_effects().iter().any(|e| matches!(
        e,
        Effect::Respond(PluginResponse::TerminalCreated { request_id: 4, .. })
    )));
}

#[test]
fn stopping_a_window_buries_its_terminals() {
    let mut editor = editor();
    {
        let tables = &mut editor.windows.get_mut(&2).unwrap().terminals;
        tables.live.insert(3, terminal(30));
        tables.bindings.insert(22, TerminalId(3));
        tables.process_groups.register(30, "terminal #3");
        tables.tracked_agent = Some(TerminalId(3));
    }
    editor.handle_stop_window(WindowId(2), 500);
    assert_eq!(
        editor.tombstones,
        vec![WindowTerminalId::new(WindowId(2), TerminalId(3))]
    );
    assert_eq!(editor.windows[&2].terminals.tracked_agent, None);
    let effects = editor.take_effects();
    assert!(effects.iter().any(|e| matches!(
        e,
        Effect::Signal {
            window: WindowId(2),
            signal: SignalName::Terminate
        }
    )));
    let targets = effects
        .into_iter()
        .find_map(|e| match e {
            Effect::EscalateLater {
                targets, grace_ms, ..
            } => {
                assert_eq!(grace_ms, 500);
                Some(targets)
            }
            _ => None,
        })
        .unwrap();
    editor
        .windows
        .get_mut(&2)
        .unwrap()
        .terminals
        .process_groups
        .register(30, "terminal #9");
    editor.handle_window_stop_escalation(WindowId(2), targets);
    assert!(matches!(
        only(&mut editor),
        Effect::Escalate { targets, .. } if targets.is_empty()
    ));
}

#[derive(Debug, Default)]
struct CountingSignaller {
    calls: std::sync::Mutex<Vec<u32>>,
}

impl Signaller for CountingSignaller {
    fn signal(&self, leader_pid: u32, _signal_name: &str) -> Result<bool, String> {
        self.calls.lock().unwrap().push(leader_pid);
        Ok(leader_pid != 31)
    }
}

#[test]
fn a_window_is_signalled_through_its_registrations() {
    let mut editor = editor();
    let targets = {
        let groups = &mut editor.windows.get_mut(&2).unwrap().terminals.process_groups;
        groups.register(30, "terminal #3");
        groups.register(31, "terminal #4");
        groups.register(32, "terminal #5");
        groups.snapshot()
    };
    editor
        .windows
        .get_mut(&2)
        .unwrap()
        .terminals
        .process_groups
        .register(32, "terminal #9");
    let signaller = CountingSignaller::default();
    let outcomes = editor.signal_groups(WindowId(2), &signaller, "SIGKILL", &targets);
    assert!(matches!(
        outcomes.as_slice(),
        [(_, Ok(true)), (_, Ok(false)), (_, Ok(false))]
    ));
    assert_eq!(*signaller.calls.lock().unwrap(), [30, 31]);
    let left: Vec<u32> = editor.windows[&2]
        .terminals
        .process_groups
        .entries()
        .iter()
        .map(|e| e.leader_pid)
        .collect();
    assert_eq!(left, [30, 32]);
    let nobody = editor.signal_groups(WindowId(99), &signaller, "SIGKILL", &targets);
    assert!(nobody.is_empty());
    assert_eq!(signaller.calls.lock().unwrap().len(), 2);
}

#[test]
fn notices_are_worded() {
    assert_eq!(Notice::Connected.text().unwrap(), "Connected");
    assert_eq!(
        Notice::ConnectedTo {
            label: "x".to_string()
        }
        .text()
        .unwrap(),
        "Connected: x"
    );
    assert_eq!(
        Notice::ExtractRolledBack.text().unwrap(),
        "Terminal extraction could not be committed and was rolled back"
    );
    assert_eq!(
        Notice::ExtractPending.text().unwrap(),
        "Terminal extraction is pending durable recovery; do not close either session"
    );
    assert_eq!(
        Notice::ProjectSwitchFailed {
            cause: Rejection::RemoteRuntimeMissing
        }
        .text()
        .unwrap(),
        "Project switch failed: async runtime not available"
    );
    assert_eq!(
        Notice::TerminalModeDisabled.text().unwrap(),
        "Terminal mode disabled - read only (Ctrl+Space to resume)"
    );
}

#[test]
fn a_split_remembers_the_buffer_that_it_leaves() {
    let mut editor = editor();
    let split = active_layout(&editor).active_split;
    {
        let window = editor.windows.get_mut(&1).unwrap();
        let layout = window.documents.layout.as_mut().unwrap();
        let state = layout.view_states.get_mut(&split.0 .0).unwrap();
        state.cursor.position = 5;
        state.viewport.top_byte = 4;
    }
    make_virtual(&mut editor, 40);
    editor.handle_create_virtual_buffer_in_existing_split(
        request("v"),
        split.0,
        None,
        None,
        Some(4),
    );
    let plan = match only(&mut editor) {
        Effect::CreateVirtualBuffer { plan, .. } => plan,
        other => panic!("{:?}", other),
    };
    editor.virtual_buffer_filled(BufferId(40), plan);
    let state = &active_layout(&editor).view_states[&split.0 .0];
    assert_eq!(state.active_buffer, BufferId(40));
    assert_eq!(state.cursor.position, 0);
    assert_eq!(state.viewport.top_byte, 0);
    assert_eq!(state.keyed_states[&11].cursor.position, 5);
    assert_eq!(state.keyed_states[&11].viewport.top_byte, 4);
}

#[test]
fn a_shown_virtual_buffer_starts_at_its_line() {
    let mut editor = editor();
    editor.handle_create_virtual_buffer_with_content(
        request("v"),
        false,
        Some(1),
        None,
        Some(3),
    );
    let plan = match only(&mut editor) {
        Effect::CreateVirtualBuffer {
            detached: false,
            plan,
            ..
        } => plan,
        other => panic!("{:?}", other),
    };
    make_virtual(&mut editor, 40);
    editor.virtual_buffer_created(BufferId(40), &plan);
    editor.virtual_buffer_filled(BufferId(40), plan);
    let (line, request_id) = match only(&mut editor) {
        Effect::ShowVirtualBuffer {
            buffer: BufferId(40),
            initial_cursor_line,
            request_id,
        } => (initial_cursor_line, request_id),
        other => panic!("{:?}", other),
    };
    let leaf = active_layout(&editor).active_split;
    {
        let window = editor.windows.get_mut(&1).unwrap();
        let layout = window.documents.layout.as_mut().unwrap();
        layout.panes[0].buffer = BufferId(40);
    }
    editor.virtual_buffer_shown(BufferId(40), line, request_id);
    let mut effects = editor.take_effects();
    match effects.remove(0) {
        Effect::SetCursor {
            position, splits, ..
        } => {
            assert_eq!(position, 2);
            assert_eq!(splits, vec![leaf]);
        }
        other => panic!("{:?}", other),
    }
    match effects.remove(0) {
        Effect::Resolve { reply, .. } => {
            assert_eq!(reply.json(), "{\"bufferId\":40,\"splitId\":null}")
        }
        other => panic!("{:?}", other),
    }
}

#[test]
fn language_servers_take_up_a_new_environment() {
    let mut editor = editor();
    editor
        .windows
        .get_mut(&2)
        .unwrap()
        .documents
        .metadata
        .get_mut(&22)
        .unwrap()
        .file_path = Some("/f".to_string());
    let running = vec!["rust".to_string(), "go".to_string()];
    editor.refresh_window_lsp_for_env(WindowId(2), &running);
    let effects = editor.take_effects();
    assert_eq!(effects.len(), 4);
    assert!(matches!(
        &effects[2],
        Effect::RestartLspIn { window: WindowId(2), language, file: Some(file) }
            if language == "go" && file == "/f"
    ));
    assert!(matches!(
        &effects[3],
        Effect::ReopenBuffersIn { window: WindowId(2), language } if language == "go"
    ));
    editor.refresh_window_lsp_for_env(WindowId(9), &running);
    assert!(editor.take_effects().is_empty());
}

#[test]
fn a_refresh_keeps_what_a_plugin_has_written() {
    let mut editor = editor();
    let mut snapshot = EditorStateSnapshot::new();
    let mut values = TextMap::new();
    values.insert("k".to_string(), Arc::new("2".to_string()));
    snapshot.global_states.insert("p".to_string(), values);
    editor.shared_snapshot = Some(snapshot);
    let mut sources = sources();
    sources.global_state[0]
        .values
        .push(("new".to_string(), Arc::new("3".to_string())));
    editor.update_plugin_state_snapshot(&sources);
    let shared = editor.shared_snapshot.as_ref().unwrap();
    let value = |key: &str| {
        shared
            .global_states
            .get("p")
            .and_then(|m| m.get(key))
            .map(|v| v.as_str())
    };
    assert_eq!(value("k"), Some("2"));
    assert_eq!(value("new"), Some("3"));
    assert_eq!(value("none"), None);
}

#[test]
fn a_doubtful_identity_is_never_connected() {
    let mut editor = editor();
    let spec = Arc::new(RemoteAgentSpec {
        transport: RemoteTransport::Kubernetes {
            target: "pod".to_string(),
            base_env: Arc::new(Vec::new()),
        },
        identity: IdentityClaim::Invalid,
        window: false,
        label: None,
        command: None,
    });
    editor.start_remote_connect(
        spec,
        RemoteAttachOwner::Switch {
            window: WindowId(1),
        },
        true,
        None,
    );
    match only(&mut editor) {
        Effect::FailConnect { attempt: 1, reason } => assert_eq!(
            reason.text(),
            "saved remote tenant identity is incomplete or invalid"
        ),
        other => panic!("{:?}", other),
    }
    assert_eq!(
        editor.begin_remote_attach_attempt(RemoteAttachOwner::Switch {
            window: WindowId(1)
        }),
        Some(2)
    );
}

#[test]
fn connections_need_a_runtime() {
    let mut editor = editor();
    editor.config.runtime = false;
    let owner = |window: u64| RemoteAttachOwner::Plugin {
        instance: PluginInstanceId(7),
        request_id: 4,
        window: WindowId(window),
    };
    editor.start_remote_connect(ssh("h"), owner(1), true, None);
    assert_eq!(refusal(&mut editor), "async runtime not available");
    editor.start_remote_connect(ssh("h"), owner(9), true, None);
    assert_eq!(refusal(&mut editor), "target window closed");
    editor.start_remote_connect(
        ssh("h"),
        RemoteAttachOwner::Switch {
            window: WindowId(1),
        },
        true,
        None,
    );
    assert_eq!(
        status(&editor, 1).unwrap(),
        "Project switch failed: async runtime not available"
    );
    editor.windows.get_mut(&2).unwrap().authority_spec = AuthoritySpec::RemoteAgent(ssh("h"));
    editor.force_reconnect_remote_session(WindowId(2));
    assert_eq!(
        status(&editor, 2).unwrap(),
        "Connection failed: async runtime not available"
    );
    assert!(editor.take_effects().is_empty());
}

#[test]
fn cells_end_with_their_character() {
    let mut window = terminal_window();
    {
        let content = &mut window.documents.buffers.get_mut(&11).unwrap().content;
        content.bytes = "a\u{e9}b\nc".as_bytes().to_vec();
        content.grapheme_starts = vec![0, 1, 3, 4, 5];
    }
    let end = |pos: u64| window.terminal_grid_cell_end(BufferId(11), pos);
    assert_eq!(end(1), 3);
    assert_eq!(end(3), 4);
    assert_eq!(end(4), 4);
    assert_eq!(end(5), 6);
    assert_eq!(window.terminal_grid_cell_end(BufferId(99), 3), 3);
}

#[test]
fn answers_of_the_host_are_passed_on() {
    let mut editor = editor();
    let cursor = CompositeCursor {
        focused_pane: 1,
        pane_count: 3,
        lines: vec![Some(12), None, Some(0)],
    };
    editor.composite_cursor_known(3, Some(cursor));
    assert_eq!(
        reply(&mut editor),
        "{\"focusedPane\":1,\"lines\":[12,null,0],\"paneCount\":3}"
    );
    let cursor = CompositeCursor {
        focused_pane: 0,
        pane_count: 0,
        lines: Vec::new(),
    };
    editor.composite_cursor_known(3, Some(cursor));
    assert_eq!(
        reply(&mut editor),
        "{\"focusedPane\":0,\"lines\":[],\"paneCount\":0}"
    );
    editor.composite_cursor_known(3, None);
    assert_eq!(reply(&mut editor), "null");
    editor.group_panel_set(3, true);
    assert_eq!(reply(&mut editor), "true");
    editor.buffer_group_created(Some(3), Some("{}".to_string()));
    assert_eq!(reply(&mut editor), "{}");
    editor.buffer_group_created(None, Some("{}".to_string()));
    editor.buffer_group_created(Some(3), None);
    editor.theme_colors_overridden(0);
    assert!(editor.take_effects().is_empty());
    editor.theme_colors_overridden(2);
    assert!(matches!(only(&mut editor), Effect::ReapplyOverlays));
}

#[test]
fn sessions_are_labelled_like_their_connection() {
    let mut spec = RemoteAgentSpec {
        transport: RemoteTransport::Ssh {
            user: Some(String::new()),
            host: "h".to_string(),
            port: None,
            identity_file: None,
            remote_path: None,
            extra_args: Vec::new(),
        },
        identity: IdentityClaim::Absent,
        window: true,
        label: None,
        command: None,
    };
    assert_eq!(spec.window_label(), "ssh:h");
    assert_eq!(spec.transport.login_user(), None);
    assert_eq!(ssh("h").transport.login_user(), Some("me".to_string()));
    spec.label = Some("mine".to_string());
    assert_eq!(spec.window_label(), "mine");
    assert_eq!(name_signal("SIGTERM".to_string()).text(), "SIGTERM");
    assert_eq!(name_signal("SIGHUP".to_string()).text(), "SIGHUP");
}

#[test]
fn paths_are_spelt_as_far_as_they_exist() {
    let ancestor = |name: Option<&str>, canonical: Option<&str>| Ancestor {
        name: name.map(|s| s.to_string()),
        canonical: canonical.map(|s| s.to_string()),
    };
    let existing = deepest_existing(&vec![
        ancestor(Some("b"), None),
        ancestor(Some("a"), None),
        ancestor(Some("RUNNER~1"), Some("C:\\runneradmin")),
        ancestor(None, Some("C:\\")),
    ])
    .unwrap();
    assert_eq!(existing.base, 2);
    assert_eq!(existing.tail, vec!["a".to_string(), "b".to_string()]);
    let whole = deepest_existing(&vec![ancestor(Some("a"), Some("/a"))]).unwrap();
    assert_eq!((whole.base, whole.tail.len()), (0, 0));
    assert!(deepest_existing(&vec![ancestor(Some("a"), None)]).is_none());
    assert_eq!(without_verbatim_prefix("\\\\?\\C:\\x"), "C:\\x");
    assert_eq!(without_verbatim_prefix("C:\\x"), "C:\\x");
    assert_eq!(without_verbatim_prefix("\\\\?"), "\\\\?");
}
