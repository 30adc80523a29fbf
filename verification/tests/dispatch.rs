use std::sync::Arc;

use fresh_editor::authority::{Authority, TrustLevel, WorkspaceRoot};
use fresh_editor::command::{
    ActionSpec, Payload, PluginCommand, PluginCommandContext, PluginCommandEnvelope,
    PluginCommandPurpose, PluginLoadProvenance, SnapshotId, TrustedBuiltinPlugin,
};
use fresh_editor::dispatch::Route;
use fresh_editor::documents::{
    BufferContent, BufferMetadata, BufferState, DisplayFlags, EventLog, SavedDiff,
};
use fresh_editor::editor::{Editor, EditorConfig};
use fresh_editor::editor_snapshot;
use fresh_editor::effects::{
    CallbackOwner, Effect, PluginResponse, Reply, SnapshotTarget,
};
use fresh_editor::geometry::Rect;
use fresh_editor::handle_command::DispatchSite;
use fresh_editor::ids::{
    AuthorityStamp, BufferId, JsCallbackId, PluginInstanceId, TerminalId, WindowId,
    WindowTerminalId,
};
use fresh_editor::notice::Rejection;
use fresh_editor::permissions::plugin_context_may_dispatch;
use fresh_editor::snapshot::EditorStateSnapshot;
use fresh_editor::window::Window;

fn root(path: &str) -> Arc<WorkspaceRoot> {
    Arc::new(WorkspaceRoot {
        path: path.to_string(),
        quoted: format!("{:?}", path),
        canonical: path.to_string(),
        name: path.trim_start_matches('/').to_string(),
        absolute: path.starts_with('/'),
    })
}

fn authority(stamp: u64) -> Authority {
    Authority {
        stamp: AuthorityStamp(stamp),
        display_label: String::new(),
        trust: TrustLevel::Trusted,
        env_active: false,
        remote: None,
        scope: None,
    }
}

fn buffer_state(text: &str) -> BufferState {
    BufferState {
        content: BufferContent {
            bytes: text.as_bytes().to_vec(),
            grapheme_starts: Vec::new(),
            path: None,
            modified: false,
            line_count: Some(1),
            language: "text".to_string(),
            primary_cursor_line: 0,
            saved_diff: Arc::new(SavedDiff {
                equal: true,
                byte_ranges: Vec::new(),
            }),
            text_properties: Arc::new(Vec::new()),
        },
        flags: DisplayFlags {
            line_numbers: true,
            show_cursors: true,
            cursor_visibility_locked: false,
            editing_disabled: false,
            indentation_guide_override: None,
            scrollable: true,
            interactive_widget_panel: false,
        },
        popups: Vec::new(),
    }
}

fn metadata(name: &str) -> BufferMetadata {
    BufferMetadata {
        display_name: name.to_string(),
        file_path: None,
        is_virtual: false,
        is_preview: false,
        hidden_from_tabs: false,
        auto_revert_enabled: true,
        synthetic_placeholder: false,
        read_only: false,
    }
}

fn window(id: u64, buffer: u64, text: &str) -> Window {
    let mut window = Window::new(
        WindowId(id),
        format!("w{}", id),
        root(&format!("/p{}", id)),
        format!("id-{}", id),
        authority(100 + id),
        80,
        24,
    );
    window.seed(
        BufferId(buffer),
        buffer_state(text),
        metadata("scratch"),
        EventLog { events: Vec::new() },
    );
    window
}

fn config() -> EditorConfig {
    EditorConfig {
        animations: true,
        auto_create_empty_buffer: true,
        runtime: true,
        bridge: true,
        terminal_width: 80,
        terminal_height: 24,
    }
}

/// An editor with the windows 1 (in the foreground) and 2.
fn editor() -> Editor {
    let mut editor = Editor::new(config(), window(1, 11, "one\ntwo\n"), None);
    editor.windows.insert(2, window(2, 22, "other"));
    editor.next_window_id = 3;
    editor.plugins.active_instances.insert(7);
    editor
}

fn site() -> DispatchSite {
    DispatchSite {
        now_ms: 1000,
        area: Rect::new(0, 0, 80, 24),
    }
}

fn plugin(window: u64) -> PluginCommandContext {
    PluginCommandContext {
        plugin_name: "plugin".to_string(),
        plugin_instance_id: PluginInstanceId(7),
        provenance: PluginLoadProvenance::User,
        source_window: Some(WindowId(window)),
        source_authority: Some(AuthorityStamp(100 + window)),
        ..PluginCommandContext::default()
    }
}

fn script(window: u64) -> PluginCommandContext {
    PluginCommandContext {
        provenance: PluginLoadProvenance::AgentScript,
        window_scope: Some(WindowId(window)),
        ..plugin(window)
    }
}

fn orchestrator(window: u64) -> PluginCommandContext {
    PluginCommandContext {
        plugin_name: "orchestrator".to_string(),
        provenance: PluginLoadProvenance::Bundled,
        trusted_builtin: Some(TrustedBuiltinPlugin::Orchestrator),
        ..plugin(window)
    }
}

fn status() -> PluginCommand {
    PluginCommand::SetStatus {
        message: "hello".to_string(),
    }
}

fn delay(callback: u64) -> PluginCommand {
    PluginCommand::Delay {
        callback_id: JsCallbackId(callback),
        duration_ms: 1,
    }
}

fn rejected(effects: &[Effect]) -> Option<(CallbackOwner, u64, String)> {
    effects.iter().find_map(|e| match e {
        Effect::Reject {
            owner,
            callback,
            reason,
        } => Some((*owner, callback.0, reason.text())),
        _ => None,
    })
}

#[test]
fn async_command_ids_are_recoverable_for_rejection() {
    let callback = JsCallbackId(41);
    assert_eq!(
        PluginCommand::Delay {
            callback_id: callback,
            duration_ms: 1,
        }
        .async_command_callback_id(),
        Some(callback)
    );
    assert_eq!(
        PluginCommand::WatchPath {
            path: "owned".to_string(),
            recursive: false,
            request_id: 42,
        }
        .async_command_callback_id(),
        Some(JsCallbackId(42))
    );
    assert_eq!(
        PluginCommand::SyncSnapshot { request_id: 43 }.async_command_callback_id(),
        Some(JsCallbackId(43))
    );
    assert_eq!(
        PluginCommand::SetStatus {
            message: "synchronous".to_string(),
        }
        .async_command_callback_id(),
        None
    );
}

#[test]
fn unloaded_trusted_instance_cannot_dispatch_queued_privileged_action() {
    let context = PluginCommandContext {
        plugin_name: "orchestrator".into(),
        plugin_instance_id: PluginInstanceId(1),
        provenance: PluginLoadProvenance::Bundled,
        trusted_builtin: Some(TrustedBuiltinPlugin::Orchestrator),
        ..PluginCommandContext::default()
    };

    assert!(plugin_context_may_dispatch(&context, true));
    assert!(!plugin_context_may_dispatch(&context, false));
}

#[test]
fn inactive_instance_allows_loader_owned_compensating_cleanup() {
    let context = PluginCommandContext {
        plugin_name: "orchestrator".into(),
        plugin_instance_id: PluginInstanceId(1),
        provenance: PluginLoadProvenance::Bundled,
        trusted_builtin: Some(TrustedBuiltinPlugin::Orchestrator),
        purpose: PluginCommandPurpose::CompensatingCleanup,
        ..PluginCommandContext::default()
    };

    assert!(plugin_context_may_dispatch(&context, false));
}

#[test]
fn an_unloaded_instance_has_its_promise_rejected() {
    let mut editor = editor();
    editor.plugins.active_instances.clear();
    let frame = editor.dispatch_plugin_command_envelope(
        PluginCommandEnvelope {
            command: delay(5),
            context: plugin(1),
        },
        site(),
    );
    assert!(frame.is_none());
    let effects = editor.take_effects();
    assert_eq!(effects.len(), 1);
    assert_eq!(
        rejected(&effects),
        Some((
            CallbackOwner::Instance(PluginInstanceId(7)),
            5,
            "plugin instance was unloaded or replaced".to_string()
        ))
    );
}

#[test]
fn a_command_without_a_promise_is_dropped_in_silence() {
    let mut editor = editor();
    editor.plugins.active_instances.clear();
    editor.dispatch_plugin_command_envelope(
        PluginCommandEnvelope {
            command: status(),
            context: plugin(1),
        },
        site(),
    );
    assert!(editor.take_effects().is_empty());
}

#[test]
fn a_closed_window_lets_nothing_through() {
    let mut editor = editor();
    assert!(matches!(
        editor.find_route(&delay(5), &plugin(9)),
        Route::Drop(Rejection::SourceWindowClosed)
    ));
    assert!(matches!(
        editor.find_route(&PluginCommand::SetGlobalState(Payload(String::new())), &plugin(9)),
        Route::Direct
    ));
    editor.dispatch_plugin_command_envelope(
        PluginCommandEnvelope {
            command: delay(5),
            context: plugin(9),
        },
        site(),
    );
    assert_eq!(
        rejected(&editor.take_effects()).unwrap().2,
        "plugin command source window is closed"
    );
}

#[test]
fn the_orchestrator_goes_on_where_its_window_is_closed() {
    let editor = editor();
    let context = orchestrator(9);
    assert!(matches!(
        editor.find_route(&status(), &context),
        Route::Scoped {
            scope: WindowId(1),
            select: true
        }
    ));
}

#[test]
fn a_replaced_backend_drops_commands() {
    let editor = editor();
    let mut context = plugin(1);
    context.source_authority = Some(AuthorityStamp(1));
    assert!(matches!(
        editor.find_route(&delay(5), &context),
        Route::Drop(Rejection::SourceAuthorityReplaced)
    ));
    assert!(matches!(
        editor.find_route(
            &PluginCommand::HookCompleted {
                hook_name: "h".to_string()
            },
            &context
        ),
        Route::Direct
    ));
}

#[test]
fn a_script_does_not_leave_its_window() {
    let editor = editor();
    let context = script(1);
    assert!(matches!(
        editor.find_route(&PluginCommand::CloseWindow { id: WindowId(2) }, &context),
        Route::Drop(Rejection::OutsideSourceWindow)
    ));
    assert!(matches!(
        editor.find_route(&PluginCommand::ReloadConfig, &context),
        Route::Drop(Rejection::OutsideSourceWindow)
    ));
    assert!(matches!(
        editor.find_route(&status(), &context),
        Route::Scoped {
            scope: WindowId(1),
            ..
        }
    ));
}

#[test]
fn a_plugin_does_not_close_other_windows() {
    let editor = editor();
    let close = PluginCommand::CloseWindow { id: WindowId(2) };
    assert!(matches!(
        editor.find_route(&close, &plugin(1)),
        Route::Drop(Rejection::OutsideSourceWindow)
    ));
    assert!(matches!(
        editor.find_route(&close, &orchestrator(1)),
        Route::Scoped {
            scope: WindowId(1),
            select: true
        }
    ));
    assert!(matches!(
        editor.find_route(&close, &plugin(2)),
        Route::Scoped {
            scope: WindowId(2),
            select: false
        }
    ));
}

#[test]
fn nobody_starts_processes_in_another_window() {
    let editor = editor();
    let spawn = PluginCommand::SendTerminalInput {
        terminal_id: WindowTerminalId::new(WindowId(2), TerminalId(1)),
        data: "x".to_string(),
    };
    assert!(matches!(
        editor.find_route(&spawn, &orchestrator(1)),
        Route::Drop(Rejection::OutsideSourceWindow)
    ));
}

#[test]
fn a_command_runs_in_its_window_and_gives_the_foreground_back() {
    let mut editor = editor();
    let mut context = plugin(2);
    context.state_snapshot = Some(SnapshotId(3));
    let frame = editor
        .dispatch_plugin_command_envelope(
            PluginCommandEnvelope {
                command: status(),
                context,
            },
            site(),
        )
        .unwrap();
    assert_eq!(editor.active_window, WindowId(2));
    assert_eq!(frame.previous, WindowId(1));
    let effects = editor.take_effects();
    assert!(matches!(
        effects.as_slice(),
        [Effect::Handle(PluginCommand::SetStatus { .. })]
    ));
    editor.finish_plugin_dispatch(frame);
    assert_eq!(editor.active_window, WindowId(1));
    let effects = editor.take_effects();
    assert!(matches!(
        effects.as_slice(),
        [
            Effect::RefreshSnapshot {
                target: SnapshotTarget::Private(SnapshotId(3)),
                window: WindowId(2),
                scope: None
            },
            Effect::RefreshSnapshot {
                target: SnapshotTarget::Shared,
                window: WindowId(1),
                scope: None
            }
        ]
    ));
}

#[test]
fn a_window_that_was_to_be_shown_stays_shown() {
    let mut editor = editor();
    let frame = editor
        .dispatch_plugin_command_envelope(
            PluginCommandEnvelope {
                command: PluginCommand::ActivateWindow {
                    id: WindowId(2),
                    request_id: 9,
                },
                context: plugin(2),
            },
            site(),
        )
        .unwrap();
    assert_eq!(editor.active_window, WindowId(2));
    editor.finish_plugin_dispatch(frame);
    assert_eq!(editor.active_window, WindowId(2));
    let effects = editor.take_effects();
    assert!(effects.iter().any(|e| matches!(
        e,
        Effect::Resolve {
            owner: CallbackOwner::Instance(PluginInstanceId(7)),
            callback: JsCallbackId(9),
            reply: Reply::Flag(true)
        }
    )));
}

#[test]
fn a_snapshot_is_synced_for_its_window() {
    let mut editor = editor();
    let mut context = script(2);
    context.state_snapshot = Some(SnapshotId(4));
    let frame = editor.dispatch_plugin_command_envelope(
        PluginCommandEnvelope {
            command: PluginCommand::SyncSnapshot { request_id: 8 },
            context,
        },
        site(),
    );
    assert!(frame.is_none());
    assert_eq!(editor.active_window, WindowId(1));
    assert!(matches!(
        editor.take_effects().as_slice(),
        [
            Effect::RefreshSnapshot {
                target: SnapshotTarget::Private(SnapshotId(4)),
                window: WindowId(2),
                scope: Some(WindowId(2))
            },
            Effect::Respond(PluginResponse::SnapshotSynced { request_id: 8 })
        ]
    ));
    let mut context = script(9);
    context.state_snapshot = Some(SnapshotId(4));
    editor.dispatch_plugin_command_envelope(
        PluginCommandEnvelope {
            command: PluginCommand::SyncSnapshot { request_id: 8 },
            context,
        },
        site(),
    );
    assert!(matches!(
        editor.take_effects().as_slice(),
        [
            Effect::ResetSnapshot {
                snapshot: SnapshotId(4)
            },
            Effect::Respond(PluginResponse::SnapshotSynced { request_id: 8 })
        ]
    ));
}

#[test]
fn only_a_script_completes() {
    let mut editor = editor();
    let complete = || PluginCommand::CompleteCommand {
        request_id: 3,
        ok: true,
        output: Payload("1".to_string()),
        error: None,
    };
    editor.dispatch_plugin_command_envelope(
        PluginCommandEnvelope {
            command: complete(),
            context: plugin(1),
        },
        site(),
    );
    assert!(editor.take_effects().is_empty());
    editor.dispatch_plugin_command_envelope(
        PluginCommandEnvelope {
            command: complete(),
            context: script(1),
        },
        site(),
    );
    assert!(matches!(
        editor.take_effects().as_slice(),
        [Effect::CompleteAgentScript {
            request_id: 3,
            authority: Some(AuthorityStamp(101)),
            ok: true,
            ..
        }]
    ));
}

#[test]
fn only_the_orchestrator_inspects_workspaces() {
    let mut editor = editor();
    let inspect = || PluginCommand::InspectWorkspacePersistence {
        root: root("/p1"),
        callback_id: JsCallbackId(6),
    };
    editor.handle_plugin_command_with_context(inspect(), &plugin(1), site());
    assert_eq!(
        rejected(&editor.take_effects()).unwrap().2,
        "only the bundled unscoped Orchestrator may inspect workspace persistence"
    );
    editor.handle_plugin_command_with_context(inspect(), &orchestrator(1), site());
    assert!(matches!(
        editor.take_effects().as_slice(),
        [Effect::ManageWorkspace { .. }]
    ));
}

#[test]
fn saved_workspaces_that_are_in_use_are_not_forgotten() {
    let mut editor = editor();
    let forget = |path: &str, id: Option<&str>| PluginCommand::ForgetWorkspacePersistence {
        root: root(path),
        stable_id: id.map(|s| s.to_string()),
        callback_id: JsCallbackId(6),
    };
    let mut reason = |command| {
        editor.handle_plugin_command_with_context(command, &orchestrator(1), site());
        rejected(&editor.take_effects()).map(|r| r.2)
    };
    assert_eq!(
        reason(forget("/p1", Some(""))).unwrap(),
        "workspace stable id must not be empty"
    );
    assert_eq!(
        reason(forget("/p1", Some("id-1"))).unwrap(),
        "workspace persistence is still owned by a live or draining session"
    );
    assert_eq!(
        reason(forget("/p1", None)).unwrap(),
        "workspace persistence is still owned by a live or draining session"
    );
    assert_eq!(reason(forget("/p1", Some("id-9"))), None);
    assert_eq!(reason(forget("/p9", None)), None);
}

#[test]
fn host_commands_are_not_gated() {
    let mut editor = editor();
    editor.handle_plugin_command(
        PluginCommand::GetBufferLineCount {
            buffer_id: BufferId(0),
            request_id: 2,
        },
        site(),
    );
    let effects = editor.take_effects();
    let replies: Vec<String> = effects
        .iter()
        .filter_map(|e| match e {
            Effect::Resolve { reply, .. } => Some(reply.json()),
            _ => None,
        })
        .collect();
    assert_eq!(replies, vec!["2".to_string()]);
}

#[test]
fn actions_that_set_trust_are_left_out() {
    let mut editor = editor();
    let action = |name: &str| ActionSpec {
        action: name.to_string(),
        count: 2,
        args: Vec::new(),
    };
    editor.handle_plugin_command(
        PluginCommand::ExecuteActions {
            actions: vec![
                action("save"),
                action("workspace_trust_trust"),
                action("workspace_trust_restrict"),
                action("workspace_trust_block"),
                action("workspace_trust_prompt"),
            ],
        },
        site(),
    );
    match editor.take_effects().as_slice() {
        [Effect::RunActions { run }] => {
            let names: Vec<&str> = (0..9)
                .filter_map(|at| run.action(at))
                .map(|a| a.action.as_str())
                .collect();
            assert_eq!(names, vec!["save", "workspace_trust_prompt"]);
        }
        other => panic!("{:?}", other),
    }
}

#[test]
fn an_agent_snapshot_shows_its_window_alone() {
    let mut editor = editor();
    let sources = fresh_editor::snapshot::SnapshotSources {
        grammars: fresh_editor::snapshot::GrammarCatalog {
            generation: 1,
            grammars: Arc::new(vec!["rust".to_string()]),
        },
        clipboard: "clip".to_string(),
        detected_env: String::new(),
        config: Arc::new("{}".to_string()),
        user_config: Arc::new("{}".to_string()),
        global_state: Vec::new(),
        spellings: fresh_editor::text_map::TextMap::new(),
    };
    let scoped = editor
        .create_scoped_plugin_snapshot(WindowId(2), &sources)
        .unwrap();
    assert_eq!(scoped.windows.len(), 1);
    assert_eq!(scoped.windows[0].id, WindowId(2));
    assert_eq!(scoped.active_window, WindowId(2));
    assert_eq!(editor.active_window, WindowId(1));
    let all = editor
        .create_plugin_snapshot(WindowId(1), false, &sources)
        .unwrap();
    let ids: Vec<u64> = all.windows.iter().map(|w| w.id.0).collect();
    assert_eq!(ids, vec![1, 2]);
    assert_eq!(all.clipboard, "clip");
    assert_eq!(all.available_grammars.len(), 1);
    assert!(editor
        .create_plugin_snapshot(WindowId(9), false, &sources)
        .is_none());
    let closed: editor_snapshot::PluginInvocation = Editor::closed_plugin_invocation(WindowId(9));
    assert!(closed.state_snapshot.is_none());
    let empty = EditorStateSnapshot::new();
    assert_eq!(empty.host_revision, 0);
}
