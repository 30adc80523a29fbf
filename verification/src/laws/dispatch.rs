//! Dispatch: which commands are carried out, and what a dropped one changes.
use vstd::prelude::*;

use crate::command::PluginCommand;
use crate::command::PluginCommandContext;
use crate::dispatch::is_unscoped_orchestrator;
use crate::dispatch::requested_scope;
use crate::dispatch::DispatchFrame;
use crate::dispatch::Route;
use crate::editor::callback_owner;
use crate::editor::EditorModel;
use crate::effects::Effect;
use crate::effects::EffectModel;
use crate::handle_command::persistence_gate;
use crate::handle_command::DispatchSite;
use crate::ids::WindowId;
use crate::notice::Rejection;
use crate::permissions::callback_of;
use crate::permissions::may_manage_persistence;
use crate::permissions::reach_of;
use crate::permissions::scope_allows;
use crate::permissions::CommandReach;

verus! {

/// An instance that was unloaded or replaced has nothing carried out, whatever
/// rights it had, unless the loader cleans up after it.
pub proof fn an_unloaded_instance_reaches_nothing(
    editor: EditorModel,
    command: PluginCommand,
    context: PluginCommandContext,
)
    requires
        !context.is_internal(),
        !context.spec_is_compensating_cleanup(),
        !editor.instance_active(context.plugin_instance_id),
        !(command is CompleteCommand),
    ensures
        editor.route_of(command, context) == Route::Drop(Rejection::InstanceReplaced),
{
}

/// A command that is dropped changes nothing but that the promise which waits
/// for it is rejected, once and for its own sender.
pub proof fn a_dropped_command_only_rejects_its_promise(
    editor: EditorModel,
    command: PluginCommand,
    context: PluginCommandContext,
    site: DispatchSite,
    frame: Option<DispatchFrame>,
    after: EditorModel,
)
    requires
        editor.route_of(command, context) is Drop,
        editor.is_dispatched(command, context, site, frame, after),
    ensures
        ({
            let reason = editor.route_of(command, context)->Drop_0;
            &&& frame is None
            &&& after == (EditorModel { outbox: after.outbox, ..editor })
            &&& match callback_of(command) {
                Some(callback) => after.outbox == editor.outbox.push(
                    EffectModel::Plain(
                        Effect::Reject { owner: callback_owner(context), callback, reason },
                    ),
                ),
                None => after.outbox == editor.outbox,
            }
        }),
{
}

/// A script of an agent is carried out for the window that it was submitted
/// for and for no other, and touches nothing outside it.
pub proof fn a_script_stays_in_its_window(
    editor: EditorModel,
    command: PluginCommand,
    context: PluginCommandContext,
    scope: WindowId,
)
    requires
        context.spec_is_agent_script(),
        context.window_scope == Some(scope),
    ensures
        match editor.route_of(command, context) {
            Route::Scoped { scope: chosen, .. } => {
                &&& chosen == scope
                &&& editor.has(scope)
                &&& scope_allows(scope, reach_of(command))
            },
            Route::Sync(chosen) => chosen == scope,
            Route::Direct => command is HookCompleted || command is SetGlobalState,
            _ => true,
        },
{
}

/// A plugin that is not the bundled Orchestrator has nothing carried out in a
/// window other than the one that it acts for.
pub proof fn a_plugin_stays_in_its_window(
    editor: EditorModel,
    command: PluginCommand,
    context: PluginCommandContext,
)
    requires
        requested_scope(context) is Some,
        !is_unscoped_orchestrator(context),
    ensures
        editor.route_of(command, context) matches Route::Scoped { scope, .. } ==> {
            &&& requested_scope(context) == Some(scope)
            &&& match reach_of(command) {
                CommandReach::Lifecycle(id) => id == scope,
                CommandReach::WindowState(id) => id == scope,
                CommandReach::Window(id) => id == scope,
                CommandReach::Backend(id) => id == scope,
                CommandReach::OpenFile(id) => id is None || id == Some(scope),
                CommandReach::SavedWindow => false,
                CommandReach::Selected | CommandReach::Editor => true,
            }
        },
{
}

/// Even the bundled Orchestrator starts no process, opens no terminal and
/// changes no backend in a window other than the one that it acts for.
pub proof fn nobody_runs_processes_in_another_window(
    editor: EditorModel,
    command: PluginCommand,
    context: PluginCommandContext,
    id: WindowId,
)
    requires
        reach_of(command) == CommandReach::Window(id) || reach_of(command)
            == CommandReach::Backend(id),
    ensures
        editor.route_of(command, context) matches Route::Scoped { scope, .. } ==> scope == id,
{
}

/// Where the window that a command was sent for is gone, no command falls
/// through to another window, but for those of the bundled Orchestrator.
pub proof fn a_closed_window_lets_nothing_through(
    editor: EditorModel,
    command: PluginCommand,
    context: PluginCommandContext,
)
    requires
        requested_scope(context) matches Some(scope) && !editor.has(scope),
        !is_unscoped_orchestrator(context),
    ensures
        match editor.route_of(command, context) {
            Route::Scoped { .. } | Route::Sync(_) => false,
            Route::Direct => command is SetGlobalState || command is HookCompleted,
            _ => true,
        },
{
}

/// Where the backend of the window was replaced since a command was sent, the
/// command is not carried out.
pub proof fn a_replaced_backend_lets_nothing_through(
    editor: EditorModel,
    command: PluginCommand,
    context: PluginCommandContext,
    scope: WindowId,
)
    requires
        requested_scope(context) == Some(scope),
        editor.has(scope),
        context.source_authority is Some,
        context.source_authority->0 != editor.window(scope).authority.stamp,
        !(is_unscoped_orchestrator(context) && editor.source_closed(context)),
    ensures
        match editor.route_of(command, context) {
            Route::Scoped { .. } | Route::Sync(_) => false,
            Route::Direct => command is HookCompleted || command is SetGlobalState,
            _ => true,
        },
{
}

/// Only the bundled Orchestrator gets at what is saved of workspaces: for
/// anybody else nothing happens but that the promise is rejected.
pub proof fn only_the_orchestrator_manages_workspaces(
    editor: EditorModel,
    command: PluginCommand,
    context: PluginCommandContext,
    site: DispatchSite,
    after: EditorModel,
)
    requires
        persistence_gate(command) is Some,
        !may_manage_persistence(context, editor.instance_active(context.plugin_instance_id)),
        editor.is_carried_out(command, context, site, after),
    ensures
        after == editor.rejecting(
            context,
            (persistence_gate(command)->0).0,
            (persistence_gate(command)->0).1,
        ),
        callback_of(command) == Some((persistence_gate(command)->0).0),
{
}

/// Once a command is done the window that was in the foreground is there
/// again, unless the command was to show another and did, or that window is
/// gone.
pub proof fn a_command_gives_the_foreground_back(editor: EditorModel, frame: DispatchFrame)
    requires
        editor.has(frame.previous),
        !editor.has_shown(frame),
    ensures
        editor.dispatched(frame).active_window == frame.previous,
        editor.dispatched(frame).windows.dom() == editor.windows.dom(),
{
    let refreshed = editor.snapshot_refreshed(frame);
    lemma_pointing_keeps_domain(editor, frame.scope);
    let selected = editor.pointing_at(frame.scope).refreshing(
        frame.snapshot,
        frame.scope,
        frame.window_scope,
    );
    lemma_pointing_keeps_domain(selected, editor.active_window);
    assert(refreshed.windows.dom() == editor.windows.dom());
    assert(editor.windows.dom().contains(frame.previous.0));
    assert(refreshed.windows.dom().contains(frame.previous.0));
    lemma_pointing_keeps_domain(refreshed, frame.previous);
}

/// A command that showed the window it was to show leaves it in the
/// foreground.
pub proof fn a_shown_window_stays_in_the_foreground(editor: EditorModel, frame: DispatchFrame)
    requires
        editor.has_shown(frame),
    ensures
        editor.dispatched(frame).active_window == editor.active_window,
{
}

proof fn lemma_pointing_keeps_domain(editor: EditorModel, id: WindowId)
    ensures
        editor.pointing_at(id).windows.dom() == editor.windows.dom(),
        editor.pointing_at(id).active_window == id,
{
    assert(editor.pointing_at(id).windows.dom() =~= editor.windows.dom());
}

} // verus!
