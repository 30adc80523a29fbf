//! Carries a command out once it is known that it may be.
use vstd::prelude::*;

use crate::command::PluginCommand;
use crate::command::PluginCommandContext;
use crate::editor::Editor;
use crate::editor::EditorModel;
use crate::effects::Effect;
use crate::effects::PluginResponse;
use crate::effects::Reply;
use crate::effects::SnapshotTarget;
use crate::geometry::Rect;
use crate::ids::JsCallbackId;
use crate::ids::WindowId;
use crate::notice::Rejection;
use crate::session_handlers::byte_length;
use crate::session_handlers::MAX_URI_BYTES;
use crate::terminal_life::name_signal;
use crate::terminal_life::signal_called;
use crate::timers::moment_after;
use crate::timers::other_timer;
use crate::timers::PluginTimer;
use crate::widgets::PanelKey;
use crate::window::Prompt;
use crate::window::UiModel;
use crate::window::WindowModel;

verus! {

/// What the host knows when a command arrives: the time in milliseconds, and
/// the area of everything but the dock.
#[derive(Clone, Copy, Debug, PartialEq, Eq, Structural)]
pub struct DispatchSite {
    pub now_ms: u64,
    pub area: Rect,
}

/// The promise that waits for a command on what is saved of workspaces, and
/// why it is rejected where the sender may not send it.
pub open spec fn persistence_gate(command: PluginCommand) -> Option<(JsCallbackId, Rejection)> {
    match command {
        PluginCommand::InspectWorkspacePersistence { callback_id, .. } => Some(
            (callback_id, Rejection::PersistenceInspectDenied),
        ),
        PluginCommand::InspectWorkspaceCreateAttempt { callback_id, .. } => Some(
            (callback_id, Rejection::CreateAttemptInspectDenied),
        ),
        PluginCommand::AcquireWorkspaceRootOwnership { callback_id, .. } => Some(
            (callback_id, Rejection::RootOwnershipDenied),
        ),
        PluginCommand::ReleaseWorkspaceRootOwnership { callback_id, .. } => Some(
            (callback_id, Rejection::RootOwnershipDenied),
        ),
        PluginCommand::QuarantineWorkspaceArtifacts { callback_id, .. } => Some(
            (callback_id, Rejection::ArtifactQuarantineDenied),
        ),
        PluginCommand::RestoreWorkspaceArtifacts { callback_id, .. } => Some(
            (callback_id, Rejection::ArtifactRestoreDenied),
        ),
        PluginCommand::PurgeWorkspaceArtifactQuarantine { callback_id, .. } => Some(
            (callback_id, Rejection::ArtifactPurgeDenied),
        ),
        _ => None,
    }
}

/// The promise and the rejection of a command on what is saved of workspaces.
fn gate_of(command: &PluginCommand) -> (gate: Option<(JsCallbackId, Rejection)>)
    ensures
        gate == persistence_gate(*command),
{
    match command {
        PluginCommand::InspectWorkspacePersistence { callback_id, .. } => Some(
            (*callback_id, Rejection::PersistenceInspectDenied),
        ),
        PluginCommand::InspectWorkspaceCreateAttempt { callback_id, .. } => Some(
            (*callback_id, Rejection::CreateAttemptInspectDenied),
        ),
        PluginCommand::AcquireWorkspaceRootOwnership { callback_id, .. } => Some(
            (*callback_id, Rejection::RootOwnershipDenied),
        ),
        PluginCommand::ReleaseWorkspaceRootOwnership { callback_id, .. } => Some(
            (*callback_id, Rejection::RootOwnershipDenied),
        ),
        PluginCommand::QuarantineWorkspaceArtifacts { callback_id, .. } => Some(
            (*callback_id, Rejection::ArtifactQuarantineDenied),
        ),
        PluginCommand::RestoreWorkspaceArtifacts { callback_id, .. } => Some(
            (*callback_id, Rejection::ArtifactRestoreDenied),
        ),
        PluginCommand::PurgeWorkspaceArtifactQuarantine { callback_id, .. } => Some(
            (*callback_id, Rejection::ArtifactPurgeDenied),
        ),
        _ => None,
    }
}

impl EditorModel {
    /// This editor once a plugin wants a session shown. One that lies dormant
    /// gets an empty window first, and is connected while that is shown.
    pub open spec fn diving(self, id: WindowId) -> EditorModel {
        if self.dormant_remote.contains_key(id.0) {
            self.emitting(Effect::OpenDormantShell { window: id, from_edge: None })
        } else {
            self.showing(id)
        }
    }

    /// This editor once a plugin wants a session shown that slides in.
    pub open spec fn sliding(self, id: WindowId, from_edge: String, area: Rect) -> EditorModel {
        if self.dormant_remote.contains_key(id.0) {
            self.emitting(Effect::OpenDormantShell { window: id, from_edge: Some(from_edge) })
        } else if self.active_window != id && self.has(id) && self.config.animations && area.width
            > 0 && area.height > 0 {
            self.showing(id).emitting(
                Effect::SlideIn {
                    area,
                    from: crate::windows::edge_named(from_edge@),
                    duration_ms: 180,
                },
            )
        } else {
            self.showing(id)
        }
    }

    /// This editor once a plugin wants a session shown and waits for it.
    pub open spec fn activating(
        self,
        id: WindowId,
        request_id: u64,
        context: PluginCommandContext,
    ) -> EditorModel {
        let shown = if self.has(id) || self.dormant_remote.contains_key(id.0) {
            self.diving(id)
        } else {
            self
        };
        shown.flagging(
            context,
            request_id,
            self.dormant_remote.contains_key(id.0) || shown.active_window == id,
        )
    }

    /// Whether `after` is this editor once a command on what the active window
    /// shows was carried out. Absent where the command is no such command.
    #[verifier::opaque]
    pub open spec fn view_outcome(
        self,
        command: PluginCommand,
        after: EditorModel,
    ) -> Option<bool> {
        match command {
            PluginCommand::SetSplitLabel { split_id, label } => Some(
                after == self.split_labelled(split_id, Some(label)),
            ),
            PluginCommand::ClearSplitLabel { split_id } => Some(
                after == self.split_labelled(split_id, None),
            ),
            PluginCommand::GetSplitByLabel { label, request_id } => Some(
                after == self.split_found(label@, request_id),
            ),
            PluginCommand::SetBufferShowCursors { buffer_id, show } => Some(
                after == self.cursors_shown(buffer_id, show),
            ),
            PluginCommand::AwaitNextKey { callback_id } => Some(
                after == self.key_awaited(callback_id),
            ),
            PluginCommand::SetKeyCaptureActive { active } => Some(
                after == self.keys_captured(active),
            ),
            PluginCommand::SetPromptInputSync { sync } => Some(
                after == self.changing_prompt(
                    |p: Prompt| Prompt { sync_input_on_navigate: sync, ..p },
                ),
            ),
            PluginCommand::SetPromptTitle { title } => Some(
                after == self.changing_prompt(|p: Prompt| Prompt { title, ..p }),
            ),
            PluginCommand::SetPromptFooter { footer } => Some(
                after == self.changing_prompt(|p: Prompt| Prompt { footer, ..p }),
            ),
            PluginCommand::SetPromptToolbar { spec } => Some(
                after == self.changing_prompt(|p: Prompt| Prompt { toolbar: spec, ..p }),
            ),
            PluginCommand::SetPromptStatus { status } => Some(
                after == self.changing_prompt(|p: Prompt| Prompt { status, ..p }),
            ),
            PluginCommand::SetPromptSelectedIndex { index } => Some(
                after == self.suggestion_selected(index),
            ),
            PluginCommand::SetContext { name, active } => Some(
                after == self.context_set(name, active),
            ),
            PluginCommand::SetReviewDiffHunks { hunks } => Some(
                after == self.changing_ui(|ui: UiModel| UiModel { review_hunks: hunks@, ..ui }),
            ),
            PluginCommand::SetEditorMode { mode } => Some(
                after == self.changing_active(|w: WindowModel| w.with_mode(mode)),
            ),
            PluginCommand::SetLspMenuContributions { plugin_id, language, items } => Some(
                after == self.menu_contributed(plugin_id, language, items),
            ),
            PluginCommand::CreateScrollSyncGroup { group_id, left_split, right_split } => Some(
                self.is_coupling(group_id, left_split, right_split, after),
            ),
            PluginCommand::SetScrollSyncAnchors { group_id, anchors } => Some(
                after == self.anchors_set(group_id, anchors),
            ),
            PluginCommand::RemoveScrollSyncGroup { group_id } => Some(
                after == self.changing_ui(
                    |ui: UiModel|
                        UiModel { scroll_sync_groups: ui.scroll_sync_groups.remove(group_id), ..ui },
                ),
            ),
            PluginCommand::ShowActionPopup { popup_id, title, message, actions, buffer_id } => Some(
                self.is_offering(popup_id@, title, message, actions@, buffer_id, after),
            ),
            _ => None,
        }
    }

    /// Whether `after` is this editor once a command on buffers, macros and
    /// text was carried out. Absent where the command is no such command.
    #[verifier::opaque]
    pub open spec fn text_outcome(
        self,
        command: PluginCommand,
        after: EditorModel,
    ) -> Option<bool> {
        match command {
            PluginCommand::ExecuteAction { action_name } => Some(
                self.is_running(action_name, after),
            ),
            PluginCommand::ExecuteActions { actions } => Some(
                after == self.asking(
                    crate::effects::EffectModel::RunActions {
                        run: crate::action_run::ActionRunModel::fresh(
                            actions@.filter(crate::ui_handlers::is_permitted_action()),
                        ),
                    },
                ),
            ),
            PluginCommand::PlayMacroByRegister { register } => Some(
                after == self.macro_played(register@),
            ),
            PluginCommand::GetBufferText { buffer_id, start, end, request_id } => Some(
                after == self.text_asked(buffer_id, start, end, request_id),
            ),
            PluginCommand::GetLineStartPosition { buffer_id, line, request_id } => Some(
                after == self.answering(
                    request_id,
                    Reply::Number(self.line_position(buffer_id, line, false)),
                ),
            ),
            PluginCommand::GetLineEndPosition { buffer_id, line, request_id } => Some(
                after == self.answering(
                    request_id,
                    Reply::Number(self.line_position(buffer_id, line, true)),
                ),
            ),
            PluginCommand::GetBufferLineCount { buffer_id, request_id } => Some(
                after == self.line_count_asked(buffer_id, request_id),
            ),
            PluginCommand::OpenFileStreaming { path, request_id } => Some(
                after == self.emitting(Effect::OpenStreaming { path, request_id }),
            ),
            PluginCommand::RefreshBufferFromDisk { buffer_id, request_id } => Some(
                after == self.refresh_asked(buffer_id, request_id),
            ),
            PluginCommand::SetBufferGroupPanelBuffer {
                group_id,
                panel_name,
                buffer_id,
                request_id,
            } => Some(
                after == self.emitting(
                    Effect::SetGroupPanel {
                        group_id,
                        panel_name,
                        buffer: self.resolved_buffer(buffer_id),
                        request_id,
                    },
                ),
            ),
            PluginCommand::ScrollToLineCenter { split_id, buffer_id, line } => Some(
                after == self.centered(split_id, buffer_id, line),
            ),
            PluginCommand::ScrollBufferToLine { buffer_id, line } => Some(
                after == self.brought_into_view(buffer_id, line),
            ),
            PluginCommand::CompositeNextHunk { buffer_id } => Some(
                after == self.hunk_moved(buffer_id, true),
            ),
            PluginCommand::CompositePrevHunk { buffer_id } => Some(
                after == self.hunk_moved(buffer_id, false),
            ),
            PluginCommand::SaveBufferToPath { buffer_id, path } => Some(
                after == self.saving(buffer_id, path),
            ),
            PluginCommand::MarkBufferReadOnly { path } => Some(
                after == self.read_only_marked(path@),
            ),
            PluginCommand::CreateVirtualBuffer { name, mode, read_only } => Some(
                after == self.emitting(
                    Effect::CreateEmptyVirtualBuffer { name, mode, read_only },
                ),
            ),
            PluginCommand::CreateVirtualBufferWithContent {
                buffer,
                hidden_from_tabs,
                initial_cursor_line,
                indentation_guide,
                request_id,
            } => Some(
                after == self.tabbing(
                    buffer,
                    hidden_from_tabs,
                    initial_cursor_line,
                    indentation_guide,
                    request_id,
                ),
            ),
            PluginCommand::CreateVirtualBufferInSplit {
                buffer,
                ratio_bits,
                direction,
                panel_id,
                line_wrap,
                before,
                role,
                scrollable,
                request_id,
            } => Some(
                after == self.splitting_for(
                    buffer,
                    ratio_bits,
                    direction,
                    panel_id,
                    line_wrap,
                    before,
                    role,
                    scrollable,
                    request_id,
                ),
            ),
            PluginCommand::SetVirtualBufferContent { buffer_id, entries } => Some(
                after == self.emitting(
                    Effect::SetVirtualContent { buffer: buffer_id, entries },
                ),
            ),
            PluginCommand::GetTextPropertiesAtCursor { .. } => Some(after == self),
            PluginCommand::CreateVirtualBufferInExistingSplit {
                buffer,
                split_id,
                line_wrap,
                initial_cursor_line,
                request_id,
            } => Some(
                after == self.placing(
                    buffer,
                    split_id,
                    line_wrap,
                    initial_cursor_line,
                    request_id,
                ),
            ),
            _ => None,
        }
    }

    /// Whether `after` is this editor once a command on windows and sessions
    /// was carried out. Absent where the command is no such command.
    #[verifier::opaque]
    pub open spec fn window_outcome(
        self,
        command: PluginCommand,
        context: PluginCommandContext,
        area: Rect,
        after: EditorModel,
    ) -> Option<bool> {
        match command {
            PluginCommand::SetWindowState { window_id, key, value } => Some(
                after == self.emitting(
                    Effect::StoreWindowState {
                        window: window_id,
                        plugin: context.plugin_name,
                        key,
                        value,
                    },
                ),
            ),
            PluginCommand::CreateWindow { root, label } => Some(
                after == self.window_asked(root, label),
            ),
            PluginCommand::CreateWindowWithTerminal {
                root,
                label,
                terminal,
                activate,
                initial_state,
                request_id,
            } => Some(
                after == self.terminal_window_requested(
                    root,
                    label,
                    terminal,
                    activate,
                    initial_state,
                    request_id,
                    context,
                ),
            ),
            PluginCommand::RestoreWorkspaceWindow { root, label, stable_id, activate, callback_id } =>
                Some(
                self.is_restore_requested(
                    root,
                    label,
                    stable_id,
                    activate,
                    callback_id,
                    context,
                    after,
                ),
            ),
            PluginCommand::SendOmpCompanionCommand { terminal_id, request_id, arguments } => Some(
                after == self.companion_asked(terminal_id, arguments, request_id, context),
            ),
            PluginCommand::SetActiveWindow { id } => Some(after == self.diving(id)),
            PluginCommand::ActivateWindow { id, request_id } => Some(
                after == self.activating(id, request_id, context),
            ),
            PluginCommand::SetActiveWindowAnimated { id, from_edge } => Some(
                after == self.sliding(id, from_edge, area),
            ),
            PluginCommand::SetWindowCycleOrder { ids } => Some(after == self.cycling(ids)),
            PluginCommand::CloseWindow { id } => Some(after == self.closing(id)),
            PluginCommand::ForgetWorkspacePersistence { root, stable_id, callback_id } => Some(
                after == self.forgetting(root, stable_id, callback_id, context),
            ),
            PluginCommand::PrewarmWindow { .. } => Some(after == self),
            PluginCommand::PreviewWindowInRect { id } => Some(after == self.previewing(id)),
            PluginCommand::OpenFileInBackground { path, window_id } => Some(
                after == self.file_routed(path, window_id),
            ),
            PluginCommand::CreateTerminal {
                terminal,
                direction,
                ratio_bits,
                focus,
                persistent,
                window_id,
                request_id,
            } => Some(
                after == self.terminal_requested(
                    terminal,
                    direction,
                    ratio_bits,
                    focus,
                    persistent,
                    window_id,
                    request_id,
                    context,
                ),
            ),
            PluginCommand::SendTerminalInput { terminal_id, data } => Some(
                after == self.typing(terminal_id, data),
            ),
            PluginCommand::CloseTerminal { terminal_id } => Some(
                after == self.terminal_closed(terminal_id),
            ),
            PluginCommand::SignalWindow { id, signal } => Some(
                after == self.signalled(id, signal_called(signal)),
            ),
            PluginCommand::StopWindow { id, grace_ms } => Some(after == self.stopped(id, grace_ms)),
            _ => None,
        }
    }

    /// Whether `after` is this editor once a command on backends, processes
    /// and language servers was carried out. Absent where the command is no
    /// such command.
    #[verifier::opaque]
    pub open spec fn backend_outcome(
        self,
        command: PluginCommand,
        context: PluginCommandContext,
        after: EditorModel,
    ) -> Option<bool> {
        match command {
            PluginCommand::WatchPath { path, recursive, request_id } => Some(
                after == self.watching(path, recursive, request_id, context),
            ),
            PluginCommand::UnwatchPath { handle } => Some(
                after == self.unwatching(handle, context),
            ),
            PluginCommand::SpawnProcess { window_id, command, args, cwd, stdout_to, callback_id } =>
                Some(
                after == self.spawning(
                    crate::effects::ProcessRequest {
                        window: window_id,
                        process_id: callback_id.0,
                        command,
                        args,
                        cwd,
                        stdout_to,
                        callback: callback_id,
                    },
                    crate::notice::SpawnOperation::Process,
                ),
            ),
            PluginCommand::SpawnHostProcess { window_id, command, args, cwd, callback_id } => Some(
                after == self.spawning(
                    crate::effects::ProcessRequest {
                        window: window_id,
                        process_id: callback_id.0,
                        command,
                        args,
                        cwd,
                        stdout_to: None,
                        callback: callback_id,
                    },
                    crate::notice::SpawnOperation::HostProcess,
                ),
            ),
            PluginCommand::SpawnBackgroundProcess {
                window_id,
                process_id,
                command,
                args,
                cwd,
                callback_id,
            } => Some(
                after == self.spawning(
                    crate::effects::ProcessRequest {
                        window: window_id,
                        process_id,
                        command,
                        args,
                        cwd,
                        stdout_to: None,
                        callback: callback_id,
                    },
                    crate::notice::SpawnOperation::BackgroundProcess,
                ),
            ),
            PluginCommand::KillHostProcess { window_id, process_id } => Some(
                after == self.killing_host(window_id, process_id),
            ),
            PluginCommand::KillBackgroundProcess { window_id, process_id } => Some(
                after == self.killing_background(window_id, process_id),
            ),
            PluginCommand::SpawnProcessWait { window_id, process_id, callback_id } => Some(
                after == self.refusing(
                    callback_id,
                    Rejection::SpawnWaitUnsupported { window: window_id, process: process_id },
                ),
            ),
            PluginCommand::Delay { callback_id, duration_ms } => Some(
                after == self.delaying(callback_id, duration_ms),
            ),
            PluginCommand::HttpFetch { url, target_path, callback_id } => Some(
                after == self.fetching(url, target_path, callback_id),
            ),
            PluginCommand::SetAuthority { window_id, payload } => Some(
                after == self.authority_asked(window_id, payload),
            ),
            PluginCommand::ClearAuthority { window_id } => Some(
                after == self.authority_cleared(window_id),
            ),
            PluginCommand::AttachRemoteAgent { window_id, payload, request_id } => Some(
                if context.source_window is Some && context.source_window != Some(window_id) {
                    after == self.attach_rejected(
                        context.plugin_instance_id,
                        request_id,
                        Rejection::AttachWindowMismatch,
                    )
                } else {
                    self.is_attaching(
                        context.plugin_instance_id,
                        context.plugin_name,
                        window_id,
                        payload,
                        request_id,
                        after,
                    )
                },
            ),
            PluginCommand::CancelRemoteAttach { request_id } => Some(
                after == self.emitting(
                    Effect::CancelPluginAttach {
                        instance: context.plugin_instance_id,
                        request_id: Some(request_id),
                    },
                ),
            ),
            PluginCommand::CancelRemoteAttaches => Some(
                after == self.emitting(
                    Effect::CancelPluginAttach {
                        instance: context.plugin_instance_id,
                        request_id: None,
                    },
                ),
            ),
            PluginCommand::SetEnv { window_id, snippet, dir } => Some(
                after == self.env_set(window_id, snippet, dir),
            ),
            PluginCommand::ClearEnv { window_id } => Some(after == self.env_cleared(window_id)),
            PluginCommand::SetRemoteIndicatorState { window_id, state } => Some(
                after == self.emitting(Effect::ParseIndicator { window: window_id, state }),
            ),
            PluginCommand::ClearRemoteIndicatorState { window_id } => Some(
                after == self.changing_window(window_id, |w: WindowModel| w.with_indicator(None)),
            ),
            PluginCommand::DisableLspForLanguage { language } => Some(
                after == self.emitting(Effect::DisableLsp { language }),
            ),
            PluginCommand::RestartLspForLanguage { language } => Some(
                after == self.lsp_restarting(language),
            ),
            PluginCommand::RegisterLspUriScheme { scheme } => Some(
                after == self.with_scheme(scheme),
            ),
            PluginCommand::SetLspRootUri { language, uri } => Some(
                self.is_rooting(language, uri, after),
            ),
            _ => None,
        }
    }

    /// Whether `after` is this editor once a command on plugins, timers, themes
    /// and panels was carried out. Absent where the command is no such command.
    #[verifier::opaque]
    pub open spec fn plugin_outcome(
        self,
        command: PluginCommand,
        context: PluginCommandContext,
        now_ms: u64,
        after: EditorModel,
    ) -> Option<bool> {
        match command {
            PluginCommand::HookCompleted { hook_name } => Some(
                after == self.emitting(Effect::CompleteHook { hook_name }),
            ),
            PluginCommand::CompleteCommand { .. } => Some(after == self),
            PluginCommand::ApplyTheme { theme_name } => Some(
                after == self.emitting(Effect::ApplyTheme { name: theme_name }),
            ),
            PluginCommand::ReloadThemes { apply_theme } => Some(
                after == self.themes_reloaded(apply_theme),
            ),
            PluginCommand::SyncSnapshot { request_id } => Some(
                after == self.emitting(
                    Effect::RefreshSnapshot {
                        target: SnapshotTarget::Shared,
                        window: self.active_window,
                        scope: None,
                    },
                ).emitting(Effect::Respond(PluginResponse::SnapshotSynced { request_id })),
            ),
            PluginCommand::UnloadPlugin { name, callback_id } => Some(
                after == self.unloading(name, callback_id, context),
            ),
            PluginCommand::ReloadPlugin { name, callback_id } => Some(
                after == self.reloading(name, callback_id, context),
            ),
            PluginCommand::SetPluginTimer {
                timer_id,
                plugin_name,
                handler_name,
                interval_ms,
                repeat,
            } => Some(
                after == self.with_timers(
                    self.plugins.timers.filter(other_timer(timer_id)).push(
                        PluginTimer {
                            id: timer_id,
                            plugin_name,
                            handler_name,
                            interval_ms,
                            repeat,
                            next_fire_ms: moment_after(now_ms, interval_ms),
                        },
                    ),
                ),
            ),
            PluginCommand::ClearPluginTimer { timer_id } => Some(
                after == self.with_timers(self.plugins.timers.filter(other_timer(timer_id))),
            ),
            PluginCommand::MountWidgetPanel { plugin, panel_id, buffer_id, spec } => Some(
                after == self.emitting(
                    Effect::DrawWidgetPanel {
                        panel: PanelKey { plugin, panel_id },
                        buffer: buffer_id,
                        spec,
                        fresh: true,
                    },
                ),
            ),
            PluginCommand::UpdateWidgetPanel { plugin, panel_id, spec } => Some(
                after == self.panel_updating(PanelKey { plugin, panel_id }, spec),
            ),
            PluginCommand::UnmountWidgetPanel { plugin, panel_id } => Some(
                after == self.with_panels(self.panels.unmounted(PanelKey { plugin, panel_id })),
            ),
            PluginCommand::WidgetMutate { plugin, panel_id, mutation } => Some(
                after == self.panel_mutated(PanelKey { plugin, panel_id }, mutation),
            ),
            PluginCommand::MountFloatingWidget { plugin, panel_id, spec, options } => Some(
                self.is_floating_mounting(PanelKey { plugin, panel_id }, options, spec, after),
            ),
            PluginCommand::UpdateFloatingWidget { plugin, panel_id, spec } => Some(
                after == self.floating_updating(PanelKey { plugin, panel_id }, spec),
            ),
            PluginCommand::UnmountFloatingWidget { plugin, panel_id } => Some(
                after == self.floating_unmounted(PanelKey { plugin, panel_id }),
            ),
            PluginCommand::FloatingPanelControl { plugin, panel_id, op, arg } => Some(
                after == self.floating_controlled(PanelKey { plugin, panel_id }, op@, arg),
            ),
            _ => None,
        }
    }

    /// Whether `after` is this editor once `command` was carried out. A command
    /// that touches only the host's own state is handed to the host.
    pub open spec fn is_carried_out(
        self,
        command: PluginCommand,
        context: PluginCommandContext,
        site: DispatchSite,
        after: EditorModel,
    ) -> bool {
        if let Some((callback, denial)) = persistence_gate(command) {
            after == self.managing(command, callback, denial, context)
        } else if let Some(holds) = self.view_outcome(command, after) {
            holds
        } else if let Some(holds) = self.text_outcome(command, after) {
            holds
        } else if let Some(holds) = self.window_outcome(command, context, site.area, after) {
            holds
        } else if let Some(holds) = self.backend_outcome(command, context, after) {
            holds
        } else if let Some(holds) = self.plugin_outcome(command, context, site.now_ms, after) {
            holds
        } else {
            after == self.emitting(Effect::Handle(command))
        }
    }
}

impl Editor {
    /// Carries a command on what the active window shows out. Hands any other
    /// back.
    fn carry_view_command(&mut self, command: PluginCommand) -> (rest: Option<PluginCommand>)
        ensures
            match rest {
                Some(other) => {
                    &&& other == command
                    &&& forall|after: EditorModel|
                        #[trigger] old(self)@.view_outcome(command, after) is None
                    &&& final(self)@ == old(self)@
                },
                None => old(self)@.view_outcome(command, final(self)@) == Some(true),
            },
    {
        proof {
            reveal(EditorModel::view_outcome);
        }
        match command {
            PluginCommand::SetSplitLabel { split_id, label } => {
                self.handle_set_split_label(split_id, Some(label));
            },
            PluginCommand::ClearSplitLabel { split_id } => {
                self.handle_set_split_label(split_id, None);
            },
            PluginCommand::GetSplitByLabel { label, request_id } => {
                self.handle_get_split_by_label(label.as_str(), request_id);
            },
            PluginCommand::SetBufferShowCursors { buffer_id, show } => {
                self.handle_set_buffer_show_cursors(buffer_id, show);
            },
            PluginCommand::AwaitNextKey { callback_id } => {
                self.handle_await_next_key(callback_id);
            },
            PluginCommand::SetKeyCaptureActive { active } => {
                self.handle_set_key_capture_active(active);
            },
            PluginCommand::SetPromptInputSync { sync } => {
                self.handle_set_prompt_input_sync(sync);
            },
            PluginCommand::SetPromptTitle { title } => {
                self.handle_set_prompt_title(title);
            },
            PluginCommand::SetPromptFooter { footer } => {
                self.handle_set_prompt_footer(footer);
            },
            PluginCommand::SetPromptToolbar { spec } => {
                self.handle_set_prompt_toolbar(spec);
            },
            PluginCommand::SetPromptStatus { status } => {
                self.handle_set_prompt_status(status);
            },
            PluginCommand::SetPromptSelectedIndex { index } => {
                self.handle_set_prompt_selected_index(index);
            },
            PluginCommand::SetContext { name, active } => {
                self.handle_set_context(name, active);
            },
            PluginCommand::SetReviewDiffHunks { hunks } => {
                self.handle_set_review_diff_hunks(hunks);
            },
            PluginCommand::SetEditorMode { mode } => {
                self.handle_set_editor_mode(mode);
            },
            PluginCommand::SetLspMenuContributions { plugin_id, language, items } => {
                self.handle_set_lsp_menu_contributions(plugin_id, language, items);
            },
            PluginCommand::CreateScrollSyncGroup { group_id, left_split, right_split } => {
                self.handle_create_scroll_sync_group(group_id, left_split, right_split);
            },
            PluginCommand::SetScrollSyncAnchors { group_id, anchors } => {
                self.handle_set_scroll_sync_anchors(group_id, anchors);
            },
            PluginCommand::RemoveScrollSyncGroup { group_id } => {
                self.handle_remove_scroll_sync_group(group_id);
            },
            PluginCommand::ShowActionPopup { popup_id, title, message, actions, buffer_id } => {
                self.handle_show_action_popup(popup_id, title, message, actions, buffer_id);
            },
            other => {
                return Some(other);
            },
        }
        None
    }

    /// Carries a command on buffers, macros and text out. Hands any other back.
    fn carry_text_command(&mut self, command: PluginCommand) -> (rest: Option<PluginCommand>)
        ensures
            match rest {
                Some(other) => {
                    &&& other == command
                    &&& forall|after: EditorModel|
                        #[trigger] old(self)@.text_outcome(command, after) is None
                    &&& final(self)@ == old(self)@
                },
                None => old(self)@.text_outcome(command, final(self)@) == Some(true),
            },
    {
        proof {
            reveal(EditorModel::text_outcome);
        }
        match command {
            PluginCommand::ExecuteAction { action_name } => {
                self.handle_execute_action(action_name);
            },
            PluginCommand::ExecuteActions { actions } => {
                self.handle_execute_actions(actions);
            },
            PluginCommand::PlayMacroByRegister { register } => {
                self.handle_play_macro_by_register(register.as_str());
            },
            PluginCommand::GetBufferText { buffer_id, start, end, request_id } => {
                self.handle_get_buffer_text(buffer_id, start, end, request_id);
            },
            PluginCommand::GetLineStartPosition { buffer_id, line, request_id } => {
                self.handle_get_line_start_position(buffer_id, line, request_id);
            },
            PluginCommand::GetLineEndPosition { buffer_id, line, request_id } => {
                self.handle_get_line_end_position(buffer_id, line, request_id);
            },
            PluginCommand::GetBufferLineCount { buffer_id, request_id } => {
                self.handle_get_buffer_line_count(buffer_id, request_id);
            },
            PluginCommand::OpenFileStreaming { path, request_id } => {
                self.emit(Effect::OpenStreaming { path, request_id });
            },
            PluginCommand::RefreshBufferFromDisk { buffer_id, request_id } => {
                self.handle_refresh_buffer_from_disk(buffer_id, request_id);
            },
            PluginCommand::SetBufferGroupPanelBuffer {
                group_id,
                panel_name,
                buffer_id,
                request_id,
            } => {
                let buffer = self.resolve_buffer_id(buffer_id);
                self.emit(Effect::SetGroupPanel { group_id, panel_name, buffer, request_id });
            },
            PluginCommand::ScrollToLineCenter { split_id, buffer_id, line } => {
                self.handle_scroll_to_line_center(split_id, buffer_id, line);
            },
            PluginCommand::ScrollBufferToLine { buffer_id, line } => {
                self.handle_scroll_buffer_to_line(buffer_id, line);
            },
            PluginCommand::CompositeNextHunk { buffer_id } => {
                self.handle_composite_hunk(buffer_id, true);
            },
            PluginCommand::CompositePrevHunk { buffer_id } => {
                self.handle_composite_hunk(buffer_id, false);
            },
            PluginCommand::SaveBufferToPath { buffer_id, path } => {
                self.handle_save_buffer_to_path(buffer_id, path);
            },
            PluginCommand::MarkBufferReadOnly { path } => {
                self.handle_mark_buffer_read_only(path.as_str());
            },
            PluginCommand::CreateVirtualBuffer { name, mode, read_only } => {
                self.emit(Effect::CreateEmptyVirtualBuffer { name, mode, read_only });
            },
            PluginCommand::CreateVirtualBufferWithContent {
                buffer,
                hidden_from_tabs,
                initial_cursor_line,
                indentation_guide,
                request_id,
            } => {
                self.handle_create_virtual_buffer_with_content(
                    buffer,
                    hidden_from_tabs,
                    initial_cursor_line,
                    indentation_guide,
                    request_id,
                );
            },
            PluginCommand::CreateVirtualBufferInSplit {
                buffer,
                ratio_bits,
                direction,
                panel_id,
                line_wrap,
                before,
                role,
                scrollable,
                request_id,
            } => {
                self.handle_create_virtual_buffer_in_split(
                    buffer,
                    ratio_bits,
                    direction,
                    panel_id,
                    line_wrap,
                    before,
                    role,
                    scrollable,
                    request_id,
                );
            },
            PluginCommand::SetVirtualBufferContent { buffer_id, entries } => {
                self.emit(Effect::SetVirtualContent { buffer: buffer_id, entries });
            },
            PluginCommand::GetTextPropertiesAtCursor { .. } => {},
            PluginCommand::CreateVirtualBufferInExistingSplit {
                buffer,
                split_id,
                line_wrap,
                initial_cursor_line,
                request_id,
            } => {
                self.handle_create_virtual_buffer_in_existing_split(
                    buffer,
                    split_id,
                    line_wrap,
                    initial_cursor_line,
                    request_id,
                );
            },
            other => {
                return Some(other);
            },
        }
        None
    }

    /// Shows a session that a plugin wants shown.
    fn dive(&mut self, id: WindowId)
        requires
            old(self)@.has_active(),
        ensures
            final(self)@ == old(self)@.diving(id),
    {
        if self.dormant_remote.contains_key(&id.0) {
            self.emit(Effect::OpenDormantShell { window: id, from_edge: None });
        } else {
            self.set_active_window(id);
        }
    }

    /// Carries a command on windows and sessions out. Hands any other back.
    fn carry_window_command(
        &mut self,
        command: PluginCommand,
        context: &PluginCommandContext,
        area: Rect,
    ) -> (rest: Option<PluginCommand>)
        requires
            old(self)@.has_active(),
        ensures
            match rest {
                Some(other) => {
                    &&& other == command
                    &&& forall|after: EditorModel|
                        #[trigger] old(self)@.window_outcome(command, *context, area, after) is None
                    &&& final(self)@ == old(self)@
                },
                None => old(self)@.window_outcome(command, *context, area, final(self)@) == Some(
                    true,
                ),
            },
    {
        proof {
            reveal(EditorModel::window_outcome);
        }
        match command {
            PluginCommand::SetWindowState { window_id, key, value } => {
                self.emit(
                    Effect::StoreWindowState {
                        window: window_id,
                        plugin: context.plugin_name.clone(),
                        key,
                        value,
                    },
                );
            },
            PluginCommand::CreateWindow { root, label } => {
                self.handle_create_window(root, label);
            },
            PluginCommand::CreateWindowWithTerminal {
                root,
                label,
                terminal,
                activate,
                initial_state,
                request_id,
            } => {
                self.handle_create_window_with_terminal(
                    root,
                    label,
                    terminal,
                    activate,
                    initial_state,
                    request_id,
                    context,
                );
            },
            PluginCommand::RestoreWorkspaceWindow { root, label, stable_id, activate, callback_id } => {
                self.handle_restore_workspace_window(
                    root,
                    label,
                    stable_id,
                    activate,
                    callback_id,
                    context,
                );
            },
            PluginCommand::SendOmpCompanionCommand { terminal_id, request_id, arguments } => {
                self.handle_send_omp_companion_command(
                    terminal_id,
                    arguments,
                    request_id,
                    context,
                );
            },
            PluginCommand::SetActiveWindow { id } => {
                self.dive(id);
            },
            PluginCommand::ActivateWindow { id, request_id } => {
                let dormant = self.dormant_remote.contains_key(&id.0);
                if dormant || self.has_window(id) {
                    self.dive(id);
                }
                let shown = dormant || self.active_window == id;
                self.resolve_bool_for_context(context, request_id, shown);
            },
            PluginCommand::SetActiveWindowAnimated { id, from_edge } => {
                if self.dormant_remote.contains_key(&id.0) {
                    self.emit(
                        Effect::OpenDormantShell { window: id, from_edge: Some(from_edge) },
                    );
                } else {
                    self.set_active_window_animated(id, from_edge.as_str(), area);
                }
            },
            PluginCommand::SetWindowCycleOrder { ids } => {
                self.handle_set_window_cycle_order(ids);
            },
            PluginCommand::CloseWindow { id } => {
                self.close_window(id);
            },
            PluginCommand::ForgetWorkspacePersistence { root, stable_id, callback_id } => {
                self.handle_forget_workspace_persistence(root, stable_id, callback_id, context);
            },
            PluginCommand::PrewarmWindow { id } => {
                self.prewarm_window(id);
            },
            PluginCommand::PreviewWindowInRect { id } => {
                self.handle_preview_window_in_rect(id);
            },
            PluginCommand::OpenFileInBackground { path, window_id } => {
                self.handle_open_file_in_background_routed(path, window_id);
            },
            PluginCommand::CreateTerminal {
                terminal,
                direction,
                ratio_bits,
                focus,
                persistent,
                window_id,
                request_id,
            } => {
                self.handle_create_terminal(
                    terminal,
                    direction,
                    ratio_bits,
                    focus,
                    persistent,
                    window_id,
                    request_id,
                    context,
                );
            },
            PluginCommand::SendTerminalInput { terminal_id, data } => {
                self.handle_send_terminal_input(terminal_id, data);
            },
            PluginCommand::CloseTerminal { terminal_id } => {
                self.handle_close_terminal(terminal_id);
            },
            PluginCommand::SignalWindow { id, signal } => {
                let signal = name_signal(signal);
                self.handle_signal_window(id, signal);
            },
            PluginCommand::StopWindow { id, grace_ms } => {
                self.handle_stop_window(id, grace_ms);
            },
            other => {
                return Some(other);
            },
        }
        None
    }

    /// Carries a command on backends, processes and language servers out.
    /// Hands any other back.
    fn carry_backend_command(&mut self, command: PluginCommand, context: &PluginCommandContext) -> (rest:
        Option<PluginCommand>)
        requires
            command matches PluginCommand::SetLspRootUri { uri, .. } ==> byte_length(uri@)
                <= MAX_URI_BYTES,
        ensures
            match rest {
                Some(other) => {
                    &&& other == command
                    &&& forall|after: EditorModel|
                        #[trigger] old(self)@.backend_outcome(command, *context, after) is None
                    &&& final(self)@ == old(self)@
                },
                None => old(self)@.backend_outcome(command, *context, final(self)@) == Some(true),
            },
    {
        proof {
            reveal(EditorModel::backend_outcome);
        }
        match command {
            PluginCommand::WatchPath { path, recursive, request_id } => {
                self.handle_watch_path(path, recursive, request_id, context);
            },
            PluginCommand::UnwatchPath { handle } => {
                self.handle_unwatch_path(handle, context);
            },
            PluginCommand::SpawnProcess {
                window_id,
                command,
                args,
                cwd,
                stdout_to,
                callback_id,
            } => {
                self.handle_spawn_process(window_id, command, args, cwd, stdout_to, callback_id);
            },
            PluginCommand::SpawnHostProcess { window_id, command, args, cwd, callback_id } => {
                self.handle_spawn_host_process(window_id, command, args, cwd, callback_id);
            },
            PluginCommand::SpawnBackgroundProcess {
                window_id,
                process_id,
                command,
                args,
                cwd,
                callback_id,
            } => {
                self.handle_spawn_background_process(
                    window_id,
                    process_id,
                    command,
                    args,
                    cwd,
                    callback_id,
                );
            },
            PluginCommand::KillHostProcess { window_id, process_id } => {
                self.handle_kill_host_process(window_id, process_id);
            },
            PluginCommand::KillBackgroundProcess { window_id, process_id } => {
                self.handle_kill_background_process(window_id, process_id);
            },
            PluginCommand::SpawnProcessWait { window_id, process_id, callback_id } => {
                self.handle_spawn_process_wait(window_id, process_id, callback_id);
            },
            PluginCommand::Delay { callback_id, duration_ms } => {
                self.handle_delay(callback_id, duration_ms);
            },
            PluginCommand::HttpFetch { url, target_path, callback_id } => {
                self.handle_http_fetch(url, target_path, callback_id);
            },
            PluginCommand::SetAuthority { window_id, payload } => {
                self.handle_set_authority(window_id, payload);
            },
            PluginCommand::ClearAuthority { window_id } => {
                self.handle_clear_authority(window_id);
            },
            PluginCommand::AttachRemoteAgent { window_id, payload, request_id } => {
                let mismatch = match context.source_window {
                    Some(source) => source != window_id,
                    None => false,
                };
                if mismatch {
                    self.reject_remote_attach(
                        context.plugin_instance_id,
                        request_id,
                        Rejection::AttachWindowMismatch,
                    );
                } else {
                    self.handle_attach_remote_agent(
                        context.plugin_instance_id,
                        context.plugin_name.clone(),
                        window_id,
                        payload,
                        request_id,
                    );
                }
            },
            PluginCommand::SetEnv { window_id, snippet, dir } => {
                self.handle_set_env(window_id, snippet, dir);
            },
            PluginCommand::ClearEnv { window_id } => {
                self.handle_clear_env(window_id);
            },
            PluginCommand::SetRemoteIndicatorState { window_id, state } => {
                self.emit(Effect::ParseIndicator { window: window_id, state });
            },
            PluginCommand::ClearRemoteIndicatorState { window_id } => {
                self.handle_clear_remote_indicator_state(window_id);
            },
            PluginCommand::CancelRemoteAttach { request_id } => {
                self.emit(
                    Effect::CancelPluginAttach {
                        instance: context.plugin_instance_id,
                        request_id: Some(request_id),
                    },
                );
            },
            PluginCommand::CancelRemoteAttaches => {
                self.emit(
                    Effect::CancelPluginAttach {
                        instance: context.plugin_instance_id,
                        request_id: None,
                    },
                );
            },
            PluginCommand::DisableLspForLanguage { language } => {
                self.emit(Effect::DisableLsp { language });
            },
            PluginCommand::RestartLspForLanguage { language } => {
                self.handle_restart_lsp_for_language(language);
            },
            PluginCommand::RegisterLspUriScheme { scheme } => {
                self.handle_register_lsp_uri_scheme(scheme);
            },
            PluginCommand::SetLspRootUri { language, uri } => {
                self.handle_set_lsp_root_uri(language, uri);
            },
            other => {
                return Some(other);
            },
        }
        None
    }

    /// Carries a command on plugins, timers, themes and panels out. Hands any
    /// other back.
    fn carry_plugin_command(
        &mut self,
        command: PluginCommand,
        context: &PluginCommandContext,
        now_ms: u64,
    ) -> (rest: Option<PluginCommand>)
        ensures
            match rest {
                Some(other) => {
                    &&& other == command
                    &&& forall|after: EditorModel|
                        #[trigger] old(self)@.plugin_outcome(command, *context, now_ms, after) is None
                    &&& final(self)@ == old(self)@
                },
                None => old(self)@.plugin_outcome(command, *context, now_ms, final(self)@)
                    == Some(true),
            },
    {
        proof {
            reveal(EditorModel::plugin_outcome);
        }
        match command {
            PluginCommand::HookCompleted { hook_name } => {
                self.emit(Effect::CompleteHook { hook_name });
            },
            PluginCommand::CompleteCommand { .. } => {},
            PluginCommand::ApplyTheme { theme_name } => {
                self.emit(Effect::ApplyTheme { name: theme_name });
            },
            PluginCommand::ReloadThemes { apply_theme } => {
                self.handle_reload_themes(apply_theme);
            },
            PluginCommand::SyncSnapshot { request_id } => {
                let window = self.active_window;
                self.emit(
                    Effect::RefreshSnapshot {
                        target: SnapshotTarget::Shared,
                        window,
                        scope: None,
                    },
                );
                self.emit(Effect::Respond(PluginResponse::SnapshotSynced { request_id }));
            },
            PluginCommand::UnloadPlugin { name, callback_id } => {
                self.handle_unload_plugin(name, callback_id, context);
            },
            PluginCommand::ReloadPlugin { name, callback_id } => {
                self.handle_reload_plugin(name, callback_id, context);
            },
            PluginCommand::SetPluginTimer {
                timer_id,
                plugin_name,
                handler_name,
                interval_ms,
                repeat,
            } => {
                self.handle_set_plugin_timer(
                    timer_id,
                    plugin_name,
                    handler_name,
                    interval_ms,
                    repeat,
                    now_ms,
                );
            },
            PluginCommand::ClearPluginTimer { timer_id } => {
                self.handle_clear_plugin_timer(timer_id);
            },
            PluginCommand::MountWidgetPanel { plugin, panel_id, buffer_id, spec } => {
                self.handle_mount_widget_panel(PanelKey { plugin, panel_id }, buffer_id, spec);
            },
            PluginCommand::UpdateWidgetPanel { plugin, panel_id, spec } => {
                self.handle_update_widget_panel(PanelKey { plugin, panel_id }, spec);
            },
            PluginCommand::UnmountWidgetPanel { plugin, panel_id } => {
                self.handle_unmount_widget_panel(&PanelKey { plugin, panel_id });
            },
            PluginCommand::WidgetMutate { plugin, panel_id, mutation } => {
                self.handle_widget_mutate(PanelKey { plugin, panel_id }, mutation);
            },
            PluginCommand::MountFloatingWidget { plugin, panel_id, spec, options } => {
                self.handle_mount_floating_widget(PanelKey { plugin, panel_id }, options, spec);
            },
            PluginCommand::UpdateFloatingWidget { plugin, panel_id, spec } => {
                self.handle_update_floating_widget(PanelKey { plugin, panel_id }, spec);
            },
            PluginCommand::UnmountFloatingWidget { plugin, panel_id } => {
                self.handle_unmount_floating_widget(&PanelKey { plugin, panel_id });
            },
            PluginCommand::FloatingPanelControl { plugin, panel_id, op, arg } => {
                self.handle_floating_panel_control(
                    &PanelKey { plugin, panel_id },
                    op.as_str(),
                    arg,
                );
            },
            other => {
                return Some(other);
            },
        }
        None
    }

    /// Carries a command out that its sender may send.
    pub fn handle_plugin_command_with_context(
        &mut self,
        command: PluginCommand,
        context: &PluginCommandContext,
        site: DispatchSite,
    )
        requires
            old(self)@.has_active(),
            command matches PluginCommand::SetLspRootUri { uri, .. } ==> byte_length(uri@)
                <= MAX_URI_BYTES,
        ensures
            old(self)@.is_carried_out(command, *context, site, final(self)@),
    {
        if let Some((callback, denial)) = gate_of(&command) {
            self.manage_workspace(command, callback, denial, context);
            return ;
        }
        let command = match self.carry_view_command(command) {
            Some(command) => command,
            None => {
                return ;
            },
        };
        let command = match self.carry_text_command(command) {
            Some(command) => command,
            None => {
                return ;
            },
        };
        let command = match self.carry_window_command(command, context, site.area) {
            Some(command) => command,
            None => {
                return ;
            },
        };
        let command = match self.carry_backend_command(command, context) {
            Some(command) => command,
            None => {
                return ;
            },
        };
        if let Some(command) = self.carry_plugin_command(command, context, site.now_ms) {
            self.emit(Effect::Handle(command));
        }
    }
}

} // verus!
