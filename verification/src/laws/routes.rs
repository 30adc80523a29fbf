//! Routes: what becomes of a command by who sent it, for which window, and what it
//! is; and which window is in the foreground once it is done.
use vstd::prelude::*;

use crate::command::PluginCommand;
use crate::command::PluginCommandContext;
use crate::command::PluginCommandPurpose;
use crate::command::PluginLoadProvenance;
use crate::command::SnapshotId;
use crate::command::TrustedBuiltinPlugin;
use crate::dispatch::DispatchFrame;
use crate::dispatch::Route;
use crate::editor::EditorModel;
use crate::effects::CallbackOwner;
use crate::effects::Effect;
use crate::effects::EffectModel;
use crate::effects::PluginResponse;
use crate::effects::SnapshotTarget;
use crate::handle_command::DispatchSite;
use crate::ids::JsCallbackId;
use crate::ids::WindowId;
use crate::laws::windows::showing_a_window_keeps_the_windows;
use crate::notice::Rejection;
use crate::permissions::callback_of;

verus! {

/// Whether a command is to show the window `id`.
pub open spec fn shows(command: PluginCommand, id: WindowId) -> bool {
    ||| command == (PluginCommand::SetActiveWindow { id })
    ||| command matches PluginCommand::ActivateWindow { id: shown, .. } && shown == id
    ||| command matches PluginCommand::SetActiveWindowAnimated { id: shown, .. } && shown == id
}

/// A command that shows an open window shows it: once it was carried out the window is
/// in the foreground, and it stays there when the dispatch is finished, whatever the
/// host has done meanwhile.
pub proof fn a_window_that_a_plugin_shows_stays_shown(
    editor: EditorModel,
    command: PluginCommand,
    context: PluginCommandContext,
    site: DispatchSite,
    frame: Option<DispatchFrame>,
    after: EditorModel,
    id: WindowId,
    done: EditorModel,
)
    requires
        shows(command, id),
        editor.route_of(command, context) is Scoped,
        editor.has(id),
        !editor.dormant_remote.contains_key(id.0),
        editor.is_dispatched(command, context, site, frame, after),
    ensures
        editor.route_of(command, context)->select == false,
        frame is Some,
        frame->0.target == Some(id),
        after.active_window == id,
        after.dispatched(frame->0).active_window == id,
        done.active_window == id ==> done.dispatched(frame->0).active_window == id,
{
    reveal(EditorModel::view_outcome);
    reveal(EditorModel::text_outcome);
    reveal(EditorModel::window_outcome);
    showing_a_window_keeps_the_windows(editor, id);
}

/// A command that is to open and show a window leaves the window that it opened in the
/// foreground; where it is not to be shown, the window that was there comes back.
pub proof fn an_opened_window_is_shown_where_it_was_to_be(
    editor: EditorModel,
    command: PluginCommand,
    context: PluginCommandContext,
    site: DispatchSite,
    frame: Option<DispatchFrame>,
    after: EditorModel,
    done: EditorModel,
)
    requires
        command is CreateWindowWithTerminal,
        editor.route_of(command, context) is Scoped,
        editor.is_dispatched(command, context, site, frame, after),
        done.active_window != editor.route_of(command, context)->scope,
        done.has(editor.active_window),
    ensures
        frame is Some,
        ({
            let finished = done.dispatched(frame->0);
            let activate = command->CreateWindowWithTerminal_activate;
            finished.active_window == if activate {
                done.active_window
            } else {
                editor.active_window
            }
        }),
{
}

/// A command that is to show nothing leaves the window in the foreground that was there,
/// whatever it and the host have done.
pub proof fn other_commands_leave_the_foreground(
    editor: EditorModel,
    command: PluginCommand,
    context: PluginCommandContext,
    site: DispatchSite,
    frame: Option<DispatchFrame>,
    after: EditorModel,
    done: EditorModel,
)
    requires
        forall|id: WindowId| !#[trigger] shows(command, id),
        !(command is CreateWindowWithTerminal),
        editor.route_of(command, context) is Scoped,
        editor.is_dispatched(command, context, site, frame, after),
        done.has(editor.active_window),
    ensures
        frame is Some,
        done.dispatched(frame->0).active_window == editor.active_window,
{
    match command {
        PluginCommand::SetActiveWindow { id } => {
            assert(shows(command, id));
        },
        PluginCommand::ActivateWindow { id, .. } => {
            assert(shows(command, id));
        },
        PluginCommand::SetActiveWindowAnimated { id, .. } => {
            assert(shows(command, id));
        },
        _ => {},
    }
}

/// A command is carried out with its window in the foreground, unless it is to show a
/// window or to close its own: that it does from where the editor is.
pub proof fn a_command_runs_in_its_window(
    editor: EditorModel,
    command: PluginCommand,
    context: PluginCommandContext,
    site: DispatchSite,
    frame: Option<DispatchFrame>,
    after: EditorModel,
)
    requires
        editor.route_of(command, context) is Scoped,
        editor.is_dispatched(command, context, site, frame, after),
    ensures
        ({
            let scope = editor.route_of(command, context)->scope;
            let from_here = (exists|id: WindowId| #[trigger] shows(command, id)) || command
                == (PluginCommand::CloseWindow { id: scope });
            &&& frame is Some
            &&& frame->0.scope == scope
            &&& frame->0.previous == editor.active_window
            &&& frame->0.snapshot == context.state_snapshot
            &&& frame->0.window_scope == context.window_scope
            &&& from_here ==> editor.is_carried_out(command, context, site, after)
            &&& !from_here ==> exists|selected: EditorModel| #[trigger]
                selected.is_carried_out(command, context, site, after) && selected.active_window
                    == scope && selected.windows.dom() == editor.windows.dom()
                    && selected.dormant_remote == editor.dormant_remote && selected.plugins
                    == editor.plugins
        }),
{
    let scope = editor.route_of(command, context)->scope;
    match command {
        PluginCommand::SetActiveWindow { id } => {
            assert(shows(command, id));
        },
        PluginCommand::ActivateWindow { id, .. } => {
            assert(shows(command, id));
        },
        PluginCommand::SetActiveWindowAnimated { id, .. } => {
            assert(shows(command, id));
        },
        _ => {
            let selected = editor.pointing_at(scope);
            assert(selected.windows.dom() =~= editor.windows.dom());
            if !(command == (PluginCommand::CloseWindow { id: scope })) {
                assert(selected.is_carried_out(command, context, site, after));
            }
        },
    }
}

/// Once a command is done its sender's own snapshot shows its window, and the shared one
/// shows the window in the foreground, in this order.
pub proof fn a_finished_command_refreshes_what_plugins_read(
    done: EditorModel,
    frame: DispatchFrame,
    snapshot: SnapshotId,
)
    ensures
        ({
            let after = done.dispatched(frame);
            let own = EffectModel::Plain(
                Effect::RefreshSnapshot {
                    target: SnapshotTarget::Private(snapshot),
                    window: frame.scope,
                    scope: frame.window_scope,
                },
            );
            let shared = EffectModel::Plain(
                Effect::RefreshSnapshot {
                    target: SnapshotTarget::Shared,
                    window: after.active_window,
                    scope: None,
                },
            );
            &&& done.has(frame.scope) && frame.snapshot == Some(snapshot) ==> after.outbox.contains(
                own,
            )
            &&& after.has(after.active_window) ==> after.outbox.len() > 0 && after.outbox.last()
                == shared
            &&& forall|i: int|
                0 <= i < done.outbox.len() ==> 0 <= i < after.outbox.len()
                    && #[trigger] after.outbox[i] == done.outbox[i]
        }),
{
    let own = EffectModel::Plain(
        Effect::RefreshSnapshot {
            target: SnapshotTarget::Private(snapshot),
            window: frame.scope,
            scope: frame.window_scope,
        },
    );
    let selected = done.pointing_at(frame.scope);
    let refreshed = selected.refreshing(frame.snapshot, frame.scope, frame.window_scope);
    let back = done.snapshot_refreshed(frame);
    let after = done.dispatched(frame);
    let moved = if !done.has_shown(frame) && back.has(frame.previous) {
        back.pointing_at(frame.previous)
    } else {
        back
    };
    lemma_pointing_extends(done, frame.scope);
    lemma_pointing_extends(refreshed, done.active_window);
    lemma_pointing_extends(back, frame.previous);
    if done.has(frame.scope) && frame.snapshot == Some(snapshot) {
        assert(refreshed.outbox.last() == own);
        let i = refreshed.outbox.len() - 1;
        assert(refreshed.outbox[i] == own);
        assert(back.outbox[i] == own);
        assert(moved.outbox[i] == own);
        assert(after.outbox[i] == own);
    }
    assert forall|i: int| 0 <= i < done.outbox.len() implies 0 <= i < after.outbox.len()
        && #[trigger] after.outbox[i] == done.outbox[i] by {
        if done.has(frame.scope) {
            assert(selected.outbox[i] == done.outbox[i]);
            assert(refreshed.outbox[i] == done.outbox[i]);
        }
        assert(back.outbox[i] == done.outbox[i]);
        assert(moved.outbox[i] == done.outbox[i]);
    }
}

proof fn lemma_pointing_extends(editor: EditorModel, id: WindowId)
    ensures
        editor.pointing_at(id).outbox.len() >= editor.outbox.len(),
        forall|i: int|
            0 <= i < editor.outbox.len() ==> #[trigger] editor.pointing_at(id).outbox[i]
                == editor.outbox[i],
{
}

/// Whether the sender of a command is still there, or may act without being there: the
/// host, a loaded instance, or the loader that cleans up after one that is gone.
pub open spec fn is_live(editor: EditorModel, context: PluginCommandContext) -> bool {
    ||| context.provenance == PluginLoadProvenance::Internal
    ||| context.purpose == PluginCommandPurpose::CompensatingCleanup
    ||| editor.plugins.active_instances.contains(context.plugin_instance_id.0)
}

/// Whether the sender is the bundled Orchestrator and is not confined to a window.
pub open spec fn is_free_orchestrator(context: PluginCommandContext) -> bool {
    &&& context.provenance == PluginLoadProvenance::Bundled
    &&& context.trusted_builtin == Some(TrustedBuiltinPlugin::Orchestrator)
    &&& context.window_scope is None
}

/// Whether a command acts for the window `id`: the one that its sender is confined to,
/// and otherwise the one that it was sent for.
pub open spec fn acts_for(context: PluginCommandContext, id: WindowId) -> bool {
    match context.window_scope {
        Some(scope) => scope == id,
        None => context.source_window == Some(id),
    }
}

/// Whether a command was sent for a window that is closed by now and does no harm there:
/// a global value is kept, and a hook has run.
pub open spec fn outlives_its_window(
    editor: EditorModel,
    command: PluginCommand,
    context: PluginCommandContext,
) -> bool {
    &&& command is SetGlobalState || command is HookCompleted
    &&& context.source_window matches Some(source) && !editor.windows.contains_key(source.0)
}

/// The completion of an agent's script is heard from a script and from nobody else.
pub proof fn only_scripts_complete_scripts(
    editor: EditorModel,
    command: PluginCommand,
    context: PluginCommandContext,
)
    requires
        command is CompleteCommand,
    ensures
        editor.route_of(command, context) == if context.provenance
            == PluginLoadProvenance::AgentScript {
            Route::Complete
        } else {
            Route::Ignore
        },
{
}

/// A sender that is gone has its commands dropped, and one that is there does not for
/// that reason.
pub proof fn a_sender_that_is_gone_is_not_heard(
    editor: EditorModel,
    command: PluginCommand,
    context: PluginCommandContext,
)
    requires
        !(command is CompleteCommand),
    ensures
        editor.route_of(command, context) == Route::Drop(Rejection::InstanceReplaced) <==> !is_live(
            editor,
            context,
        ),
{
}

/// A command of a live sender that acts for no window, and one that outlives its window,
/// is carried out as it is.
pub proof fn a_command_without_a_window_is_carried_out(
    editor: EditorModel,
    command: PluginCommand,
    context: PluginCommandContext,
)
    requires
        is_live(editor, context),
        !(command is CompleteCommand),
        (context.window_scope is None && context.source_window is None) || outlives_its_window(
            editor,
            command,
            context,
        ),
    ensures
        editor.route_of(command, context) == Route::Direct,
{
}

/// A command of a live sender for an open window is carried out for that window where
/// its sender may send it and the window has the backend that it had; otherwise it is
/// dropped with the reason. A hook that has run is taken note of in any case, and a
/// snapshot is brought up to date.
pub proof fn a_command_for_an_open_window_runs_there(
    editor: EditorModel,
    command: PluginCommand,
    context: PluginCommandContext,
    id: WindowId,
)
    requires
        is_live(editor, context),
        acts_for(context, id),
        editor.windows.contains_key(id.0),
        !(command is CompleteCommand),
        !outlives_its_window(editor, command, context),
    ensures
        ({
            let route = editor.route_of(command, context);
            let same_backend = context.source_authority is None || context.source_authority->0
                == editor.windows[id.0].authority.stamp;
            &&& command is HookCompleted ==> route == Route::Direct
            &&& !(command is HookCompleted) && !same_backend ==> route == Route::Drop(
                Rejection::SourceAuthorityReplaced,
            )
            &&& command is SyncSnapshot && same_backend ==> route == Route::Sync(id)
            &&& !(command is HookCompleted) && !(command is SyncSnapshot) && same_backend
                ==> if may_send(command, context, id) {
                route is Scoped && route->scope == id
            } else {
                route == Route::Drop(Rejection::OutsideSourceWindow)
            }
        }),
{
}

/// Where the window that a command acts for is closed, only the bundled Orchestrator is
/// carried out, in the window in the foreground and whatever its backend is; anybody
/// else's snapshot is emptied, and anybody else's command is dropped.
pub proof fn a_command_for_a_closed_window_is_dropped(
    editor: EditorModel,
    command: PluginCommand,
    context: PluginCommandContext,
    id: WindowId,
)
    requires
        is_live(editor, context),
        acts_for(context, id),
        !editor.windows.contains_key(id.0),
        !(command is CompleteCommand),
        !outlives_its_window(editor, command, context),
    ensures
        ({
            let route = editor.route_of(command, context);
            let front = editor.active_window;
            if is_free_orchestrator(context) && editor.windows.contains_key(front.0) {
                &&& command is SyncSnapshot ==> route == Route::Sync(front)
                &&& !(command is SyncSnapshot) ==> if may_send(command, context, front) {
                    route is Scoped && route->scope == front
                } else {
                    route == Route::Drop(Rejection::OutsideSourceWindow)
                }
            } else {
                route == if command is SyncSnapshot {
                    Route::Reset
                } else {
                    Route::Drop(Rejection::SourceWindowClosed)
                }
            }
        }),
{
}

/// The window whose life or plugin state a command touches.
pub open spec fn governs(command: PluginCommand) -> Option<WindowId> {
    match command {
        PluginCommand::SetActiveWindow { id } | PluginCommand::CloseWindow { id }
        | PluginCommand::PrewarmWindow { id } | PluginCommand::ActivateWindow { id, .. }
        | PluginCommand::SetActiveWindowAnimated { id, .. }
        | PluginCommand::SignalWindow { id, .. } | PluginCommand::StopWindow { id, .. } => Some(id),
        PluginCommand::SetWindowState { window_id, .. } => Some(window_id),
        _ => None,
    }
}

/// The window in which a command runs processes, drives terminals or shows how a remote
/// session is.
pub open spec fn runs_in(command: PluginCommand) -> Option<WindowId> {
    match command {
        PluginCommand::SpawnProcess { window_id, .. }
        | PluginCommand::SpawnBackgroundProcess { window_id, .. }
        | PluginCommand::KillBackgroundProcess { window_id, .. }
        | PluginCommand::SpawnProcessWait { window_id, .. }
        | PluginCommand::SetRemoteIndicatorState { window_id, .. }
        | PluginCommand::ClearRemoteIndicatorState { window_id }
        | PluginCommand::CreateTerminal { window_id, .. } => Some(window_id),
        PluginCommand::SendTerminalInput { terminal_id, .. }
        | PluginCommand::CloseTerminal { terminal_id } => Some(terminal_id.window),
        _ => None,
    }
}

/// The window whose backend a command changes.
pub open spec fn moves_backend(command: PluginCommand) -> Option<WindowId> {
    match command {
        PluginCommand::SetAuthority { window_id, .. }
        | PluginCommand::ClearAuthority { window_id }
        | PluginCommand::AttachRemoteAgent { window_id, .. } => Some(window_id),
        _ => None,
    }
}

/// Whether a command reaches beyond any window: plugins, settings, the host, what is
/// saved of workspaces, other sessions, actions of the editor.
pub open spec fn reaches_the_editor(command: PluginCommand) -> bool {
    match command {
        PluginCommand::AddMenuItem(_) | PluginCommand::AddMenu(_)
        | PluginCommand::RemoveMenuItem(_) | PluginCommand::RemoveMenu(_)
        | PluginCommand::SetGlobalState(_) | PluginCommand::ApplyTheme { .. }
        | PluginCommand::OverrideThemeColors(_) | PluginCommand::ReloadConfig
        | PluginCommand::SetSetting(_) | PluginCommand::AddPluginConfigField(_)
        | PluginCommand::ReloadThemes { .. } | PluginCommand::RegisterGrammar(_)
        | PluginCommand::RegisterLanguageConfig(_) | PluginCommand::RegisterLspServer(_)
        | PluginCommand::ReloadGrammars { .. } | PluginCommand::CreateWindow { .. }
        | PluginCommand::CreateWindowWithTerminal { .. }
        | PluginCommand::SendOmpCompanionCommand { .. }
        | PluginCommand::SetWindowCycleOrder { .. }
        | PluginCommand::InspectWorkspacePersistence { .. }
        | PluginCommand::InspectWorkspaceCreateAttempt { .. }
        | PluginCommand::ForgetWorkspacePersistence { .. }
        | PluginCommand::AcquireWorkspaceRootOwnership { .. }
        | PluginCommand::ReleaseWorkspaceRootOwnership { .. }
        | PluginCommand::QuarantineWorkspaceArtifacts { .. }
        | PluginCommand::RestoreWorkspaceArtifacts { .. }
        | PluginCommand::PurgeWorkspaceArtifactQuarantine { .. }
        | PluginCommand::PreviewWindowInRect { .. } | PluginCommand::RegisterCommand(_)
        | PluginCommand::RegisterStatusBarElement(_) | PluginCommand::UnregisterCommand(_)
        | PluginCommand::DefineMode(_) | PluginCommand::SpawnHostProcess { .. }
        | PluginCommand::KillHostProcess { .. } | PluginCommand::CancelRemoteAttach { .. }
        | PluginCommand::CancelRemoteAttaches | PluginCommand::SetEnv { .. }
        | PluginCommand::ClearEnv { .. } | PluginCommand::SetContext { .. }
        | PluginCommand::ExecuteAction { .. } | PluginCommand::ExecuteActions { .. }
        | PluginCommand::DefineMacro { .. } | PluginCommand::PlayMacroByRegister { .. }
        | PluginCommand::SetEditorMode { .. } | PluginCommand::SetLspMenuContributions { .. }
        | PluginCommand::DisableLspForLanguage { .. }
        | PluginCommand::RestartLspForLanguage { .. }
        | PluginCommand::RegisterLspUriScheme { .. } | PluginCommand::SetLspRootUri { .. }
        | PluginCommand::LoadPlugin { .. } | PluginCommand::UnloadPlugin { .. }
        | PluginCommand::ReloadPlugin { .. } | PluginCommand::ListPlugins { .. }
        | PluginCommand::SetPluginTimer { .. } | PluginCommand::ClearPluginTimer { .. }
        | PluginCommand::ReloadInit { .. } | PluginCommand::RunEditorCommand { .. }
        | PluginCommand::ListEditorCommands { .. } | PluginCommand::MountFloatingWidget { .. }
        | PluginCommand::UpdateFloatingWidget { .. }
        | PluginCommand::UnmountFloatingWidget { .. }
        | PluginCommand::FloatingPanelControl { .. } => true,
        _ => false,
    }
}

/// Whether a sender may have a command carried out for the window `scope`. A script of
/// an agent touches its window and nothing else. A plugin touches its window and what is
/// the editor's own; the bundled Orchestrator governs other windows too, and brings
/// saved ones back, but runs nothing in them and leaves their backends alone.
pub open spec fn may_send(
    command: PluginCommand,
    context: PluginCommandContext,
    scope: WindowId,
) -> bool {
    let script = context.provenance == PluginLoadProvenance::AgentScript;
    if let Some(id) = governs(command) {
        id == scope || (!script && is_free_orchestrator(context))
    } else if let Some(id) = runs_in(command) {
        id == scope
    } else if let Some(id) = moves_backend(command) {
        id == scope && !script
    } else if let PluginCommand::OpenFileInBackground { window_id, .. } = command {
        window_id is None || window_id == Some(scope)
    } else if command is RestoreWorkspaceWindow {
        !script && is_free_orchestrator(context)
    } else {
        !script || !reaches_the_editor(command)
    }
}

/// The promise that a command carries: every command that asks for an answer names the
/// promise which waits for it.
pub open spec fn promised(command: PluginCommand) -> Option<JsCallbackId> {
    match command {
        PluginCommand::ReloadGrammars { callback_id, .. }
        | PluginCommand::StartPromptAsync { callback_id, .. }
        | PluginCommand::StartFilePickAsync { callback_id, .. }
        | PluginCommand::AwaitNextKey { callback_id, .. }
        | PluginCommand::RestoreWorkspaceWindow { callback_id, .. }
        | PluginCommand::InspectWorkspacePersistence { callback_id, .. }
        | PluginCommand::InspectWorkspaceCreateAttempt { callback_id, .. }
        | PluginCommand::ForgetWorkspacePersistence { callback_id, .. }
        | PluginCommand::AcquireWorkspaceRootOwnership { callback_id, .. }
        | PluginCommand::ReleaseWorkspaceRootOwnership { callback_id, .. }
        | PluginCommand::QuarantineWorkspaceArtifacts { callback_id, .. }
        | PluginCommand::RestoreWorkspaceArtifacts { callback_id, .. }
        | PluginCommand::PurgeWorkspaceArtifactQuarantine { callback_id, .. }
        | PluginCommand::SpawnProcess { callback_id, .. }
        | PluginCommand::SpawnHostProcess { callback_id, .. }
        | PluginCommand::SpawnProcessWait { callback_id, .. }
        | PluginCommand::Delay { callback_id, .. }
        | PluginCommand::HttpFetch { callback_id, .. }
        | PluginCommand::SpawnBackgroundProcess { callback_id, .. }
        | PluginCommand::LoadPlugin { callback_id, .. }
        | PluginCommand::UnloadPlugin { callback_id, .. }
        | PluginCommand::ReloadPlugin { callback_id, .. }
        | PluginCommand::ListPlugins { callback_id, .. }
        | PluginCommand::ReloadInit { callback_id, .. }
        | PluginCommand::RunEditorCommand { callback_id, .. }
        | PluginCommand::ListEditorCommands { callback_id, .. }
        | PluginCommand::RegisterDiffBaseline { callback_id, .. }
        | PluginCommand::DiffAgainstBaseline { callback_id, .. }
        | PluginCommand::DiffBaselinePair { callback_id, .. }
        | PluginCommand::GetBaselineLines { callback_id, .. }
        | PluginCommand::RefreshDiffBaseline { callback_id, .. }
        | PluginCommand::GrepProject { callback_id, .. }
        | PluginCommand::ReplaceInBuffer { callback_id, .. } => Some(callback_id),
        PluginCommand::RequestHighlights { request_id, .. }
        | PluginCommand::GetSplitByLabel { request_id, .. }
        | PluginCommand::CreateWindowWithTerminal { request_id, .. }
        | PluginCommand::SendOmpCompanionCommand { request_id, .. }
        | PluginCommand::ActivateWindow { request_id, .. }
        | PluginCommand::WatchPath { request_id, .. }
        | PluginCommand::SendLspRequest { request_id, .. }
        | PluginCommand::AttachRemoteAgent { request_id, .. }
        | PluginCommand::CancelRemoteAttach { request_id, .. }
        | PluginCommand::GetBufferText { request_id, .. }
        | PluginCommand::GetLineStartPosition { request_id, .. }
        | PluginCommand::GetLineEndPosition { request_id, .. }
        | PluginCommand::GetBufferLineCount { request_id, .. }
        | PluginCommand::GetCompositeCursorInfo { request_id, .. }
        | PluginCommand::OpenFileStreaming { request_id, .. }
        | PluginCommand::RefreshBufferFromDisk { request_id, .. }
        | PluginCommand::SetBufferGroupPanelBuffer { request_id, .. }
        | PluginCommand::SyncSnapshot { request_id, .. }
        | PluginCommand::CreateTerminal { request_id, .. } => Some(
            JsCallbackId(request_id),
        ),
        PluginCommand::CreateVirtualBufferWithContent { request_id, .. }
        | PluginCommand::CreateVirtualBufferInSplit { request_id, .. }
        | PluginCommand::CreateVirtualBufferInExistingSplit { request_id, .. }
        | PluginCommand::CreateCompositeBuffer { request_id, .. }
        | PluginCommand::SplitWindow { request_id, .. }
        | PluginCommand::CreateBufferGroup { request_id, .. } => match request_id {
            Some(request) => Some(JsCallbackId(request)),
            None => None,
        },
        _ => None,
    }
}

/// A command that is dropped rejects the promise that it carries, with the reason and
/// for its own sender, and changes nothing else.
pub proof fn a_dropped_command_breaks_its_promise(
    editor: EditorModel,
    command: PluginCommand,
    context: PluginCommandContext,
    site: DispatchSite,
    frame: Option<DispatchFrame>,
    after: EditorModel,
    reason: Rejection,
)
    requires
        editor.route_of(command, context) == Route::Drop(reason),
        editor.is_dispatched(command, context, site, frame, after),
    ensures
        frame is None,
        after == (EditorModel { outbox: after.outbox, ..editor }),
        match promised(command) {
            Some(callback) => after.outbox == editor.outbox.push(
                EffectModel::Plain(
                    Effect::Reject {
                        owner: if context.provenance == PluginLoadProvenance::Internal {
                            CallbackOwner::Host
                        } else {
                            CallbackOwner::Instance(context.plugin_instance_id)
                        },
                        callback,
                        reason,
                    },
                ),
            ),
            None => after.outbox == editor.outbox,
        },
{
    assert(callback_of(command) == promised(command));
}

/// A request for a snapshot is always answered. Where the window is there the snapshot
/// shows it first; where it is gone the snapshot is emptied first. The window in the
/// foreground stays there.
pub proof fn a_request_for_a_snapshot_is_answered(
    editor: EditorModel,
    context: PluginCommandContext,
    site: DispatchSite,
    frame: Option<DispatchFrame>,
    after: EditorModel,
    request_id: u64,
)
    requires
        editor.is_dispatched(
            PluginCommand::SyncSnapshot { request_id },
            context,
            site,
            frame,
            after,
        ),
    ensures
        ({
            let route = editor.route_of(PluginCommand::SyncSnapshot { request_id }, context);
            let answer = EffectModel::Plain(
                Effect::Respond(PluginResponse::SnapshotSynced { request_id }),
            );
            let snapshot = context.state_snapshot->0;
            &&& route is Sync || route is Reset ==> frame is None && after.active_window
                == editor.active_window && after.outbox.contains(answer)
            &&& route is Sync && context.state_snapshot is Some ==> after.outbox.contains(
                EffectModel::Plain(
                    Effect::RefreshSnapshot {
                        target: SnapshotTarget::Private(snapshot),
                        window: route->Sync_0,
                        scope: context.window_scope,
                    },
                ),
            )
            &&& route is Reset && context.state_snapshot is Some ==> after.outbox.contains(
                EffectModel::Plain(Effect::ResetSnapshot { snapshot }),
            )
            &&& route is Reset ==> after == (EditorModel { outbox: after.outbox, ..editor })
        }),
{
    let route = editor.route_of(PluginCommand::SyncSnapshot { request_id }, context);
    let answer = EffectModel::Plain(Effect::Respond(PluginResponse::SnapshotSynced { request_id }));
    if let Route::Sync(scope) = route {
        let selected = editor.pointing_at(scope);
        let refreshed = selected.refreshing(context.state_snapshot, scope, context.window_scope);
        let answered = refreshed.asking(answer);
        lemma_pointing_extends(answered, editor.active_window);
        let last = answered.outbox.len() - 1;
        assert(answered.outbox[last] == answer);
        assert(after.outbox[last] == answer);
        if context.state_snapshot is Some {
            assert(answered.outbox[last - 1] == refreshed.outbox.last());
            assert(after.outbox[last - 1] == refreshed.outbox.last());
        }
    }
    if route is Reset {
        let last = after.outbox.len() - 1;
        assert(after.outbox[last] == answer);
        if context.state_snapshot is Some {
            assert(after.outbox[last - 1] == EffectModel::Plain(
                Effect::ResetSnapshot { snapshot: context.state_snapshot->0 },
            ));
        }
    }
}

/// The completion of a script is handed on with the script's own words and the backend
/// that its window has now.
pub proof fn a_completion_is_handed_on(
    editor: EditorModel,
    command: PluginCommand,
    context: PluginCommandContext,
    site: DispatchSite,
    frame: Option<DispatchFrame>,
    after: EditorModel,
)
    requires
        command is CompleteCommand,
        editor.is_dispatched(command, context, site, frame, after),
    ensures
        frame is None,
        !(context.provenance == PluginLoadProvenance::AgentScript) ==> after == editor,
        context.provenance == PluginLoadProvenance::AgentScript ==> after == (EditorModel {
            outbox: editor.outbox.push(
                EffectModel::Plain(
                    Effect::CompleteAgentScript {
                        context,
                        request_id: command->CompleteCommand_request_id,
                        authority: if context.source_window is Some && editor.windows.contains_key(
                            (context.source_window->0).0,
                        ) {
                            Some(editor.windows[(context.source_window->0).0].authority.stamp)
                        } else {
                            None
                        },
                        ok: command->CompleteCommand_ok,
                        output: command->CompleteCommand_output,
                        error: command->CompleteCommand_error,
                    },
                ),
            ),
            ..editor
        }),
{
}

} // verus!
