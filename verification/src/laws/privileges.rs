//! Privileges: who gets at what is saved of workspaces, and at terminals that may drive
//! the editor.
use std::sync::Arc;
use vstd::prelude::*;

use crate::command::PluginCommand;
use crate::command::PluginCommandContext;
use crate::command::PluginLoadProvenance;
use crate::command::TerminalRequest;
use crate::command::TrustedBuiltinPlugin;
use crate::editor::EditorModel;
use crate::effects::CallbackOwner;
use crate::effects::Effect;
use crate::effects::EffectModel;
use crate::handle_command::DispatchSite;
use crate::ids::JsCallbackId;
use crate::ids::WindowId;
use crate::laws::routes::promised;
use crate::mouse::SplitDirection;
use crate::notice::Rejection;
use crate::terminal_create::terminal_filed;
use crate::terminal_create::StartedTerminal;
use crate::terminals::TerminalsModel;

verus! {

/// Whose promises a sender waits on.
pub open spec fn owner(context: PluginCommandContext) -> CallbackOwner {
    if context.provenance == PluginLoadProvenance::Internal {
        CallbackOwner::Host
    } else {
        CallbackOwner::Instance(context.plugin_instance_id)
    }
}

/// An editor that was asked for one thing, and is otherwise as it was.
pub open spec fn asked(editor: EditorModel, effect: Effect) -> EditorModel {
    EditorModel { outbox: editor.outbox.push(EffectModel::Plain(effect)), ..editor }
}

/// An editor that rejects a promise of a sender, and is otherwise as it was.
pub open spec fn turned_down(
    editor: EditorModel,
    context: PluginCommandContext,
    request_id: u64,
    reason: Rejection,
) -> EditorModel {
    asked(
        editor,
        Effect::Reject { owner: owner(context), callback: JsCallbackId(request_id), reason },
    )
}

/// Whether a sender is the bundled Orchestrator, loaded and not confined to a window.
pub open spec fn manages_workspaces(editor: EditorModel, context: PluginCommandContext) -> bool {
    &&& context.provenance == PluginLoadProvenance::Bundled
    &&& context.trusted_builtin == Some(TrustedBuiltinPlugin::Orchestrator)
    &&& context.window_scope is None
    &&& editor.plugins.active_instances.contains(context.plugin_instance_id.0)
}

/// Whether a sender may ask for terminals that drive the editor: the host, or the bundled
/// Orchestrator while it is loaded.
pub open spec fn may_drive(editor: EditorModel, context: PluginCommandContext) -> bool {
    ||| context.provenance == PluginLoadProvenance::Internal
    ||| context.provenance == PluginLoadProvenance::Bundled && context.trusted_builtin == Some(
        TrustedBuiltinPlugin::Orchestrator,
    ) && editor.plugins.active_instances.contains(context.plugin_instance_id.0)
}

/// Why a command on what is saved of workspaces is refused to anybody but the bundled
/// Orchestrator.
pub open spec fn denial(command: PluginCommand) -> Option<Rejection> {
    match command {
        PluginCommand::InspectWorkspacePersistence { .. } => Some(
            Rejection::PersistenceInspectDenied,
        ),
        PluginCommand::InspectWorkspaceCreateAttempt { .. } => Some(
            Rejection::CreateAttemptInspectDenied,
        ),
        PluginCommand::AcquireWorkspaceRootOwnership { .. }
        | PluginCommand::ReleaseWorkspaceRootOwnership { .. } => Some(
            Rejection::RootOwnershipDenied,
        ),
        PluginCommand::QuarantineWorkspaceArtifacts { .. } => Some(
            Rejection::ArtifactQuarantineDenied,
        ),
        PluginCommand::RestoreWorkspaceArtifacts { .. } => Some(Rejection::ArtifactRestoreDenied),
        PluginCommand::PurgeWorkspaceArtifactQuarantine { .. } => Some(
            Rejection::ArtifactPurgeDenied,
        ),
        _ => None,
    }
}

/// What is saved of workspaces is inspected, owned, set aside and brought back for the
/// bundled Orchestrator, and for nobody else: anybody else's promise is rejected.
pub proof fn saved_workspaces_belong_to_the_orchestrator(
    editor: EditorModel,
    command: PluginCommand,
    context: PluginCommandContext,
    site: DispatchSite,
    after: EditorModel,
)
    requires
        denial(command) is Some,
        editor.is_carried_out(command, context, site, after),
    ensures
        promised(command) is Some,
        after == asked(
            editor,
            if manages_workspaces(editor, context) {
                Effect::ManageWorkspace { owner: owner(context), command }
            } else {
                Effect::Reject {
                    owner: owner(context),
                    callback: promised(command)->0,
                    reason: denial(command)->0,
                }
            },
        ),
{
}

/// A terminal that may drive the editor, has a companion or is the agent that is followed
/// is started for the host and the bundled Orchestrator only. A plugin starts terminals
/// in its own window only, and nobody in a window that is gone.
pub proof fn a_terminal_is_started_by_those_who_may(
    editor: EditorModel,
    terminal: TerminalRequest,
    direction: Option<String>,
    ratio_bits: Option<u32>,
    focus: Option<bool>,
    persistent: bool,
    window: WindowId,
    request_id: u64,
    context: PluginCommandContext,
)
    ensures
        ({
            let after = editor.terminal_requested(
                terminal,
                direction,
                ratio_bits,
                focus,
                persistent,
                window,
                request_id,
                context,
            );
            let denied = (terminal.allow_script || terminal.companion is Some
                || terminal.selected_agent) && !may_drive(editor, context);
            let elsewhere = context.provenance != PluginLoadProvenance::Internal
                && context.source_window is Some && context.source_window->0 != window;
            let there = editor.windows.contains_key(window.0);
            &&& denied ==> after == turned_down(
                editor,
                context,
                request_id,
                Rejection::CreateTerminalPrivileged,
            )
            &&& !denied && elsewhere ==> after == turned_down(
                editor,
                context,
                request_id,
                Rejection::CreateTerminalMismatch,
            )
            &&& !denied && !elsewhere && !there ==> after == turned_down(
                editor,
                context,
                request_id,
                Rejection::CreateTerminalWindowGone { window },
            )
            &&& !denied && !elsewhere && there ==> {
                let effect = after.outbox.last()->Plain_0;
                let ticket = effect->StartTerminal_ticket;
                let placement = effect->StartTerminal_placement;
                let started = effect->StartTerminal_terminal;
                &&& after == asked(editor, effect)
                &&& effect is StartTerminal
                &&& ticket.owner == owner(context)
                &&& ticket.request_id == request_id
                &&& ticket.window == window
                &&& ticket.resume == terminal.resume
                &&& ticket.selected_agent == terminal.selected_agent
                &&& terminal.relaunch is Some ==> ticket.restore_command == terminal.relaunch
                &&& terminal.relaunch is None ==> ticket.restore_command == terminal.command
                &&& ticket.previous_active_buffer is Some <==> window == editor.active_window
                &&& placement.focus == (focus is None || focus == Some(true))
                &&& placement.persistent == persistent
                &&& placement.ratio_bits == ratio_bits
                &&& direction is None ==> placement.direction is None
                &&& direction is Some ==> placement.direction == Some(
                    if direction->0@ == "horizontal"@ {
                        SplitDirection::Horizontal
                    } else {
                        SplitDirection::Vertical
                    },
                )
                &&& started.command == terminal.command
                &&& started.allow_script == terminal.allow_script
                &&& started.companion == terminal.companion
                &&& terminal.title is Some && terminal.title->0@.len() > 0 ==> started.title
                    == terminal.title
                &&& terminal.title is None || terminal.title->0@.len() == 0 ==> started.title
                    is None
            }
        }),
{
}

/// A terminal that was started is on record with the command lines that bring it back,
/// with its right to drive the editor where it has one, and as the agent that is followed
/// where it is one. Nothing else on record changes.
pub proof fn a_started_terminal_is_on_record(
    tables: TerminalsModel,
    started: StartedTerminal,
    restore: Option<Seq<String>>,
    resume: Option<Arc<Vec<String>>>,
    selected_agent: bool,
    other: u64,
)
    ensures
        ({
            let after = terminal_filed(tables, started, restore, resume, selected_agent);
            let k = started.terminal.0;
            &&& restore is Some ==> after.commands.contains_key(k) && after.commands[k]
                == restore->0
            &&& resume is Some ==> after.resume_commands.contains_key(k)
                && after.resume_commands[k] == resume->0
            &&& started.script_access ==> after.script_tokens.contains(k)
            &&& !started.script_access ==> after.script_tokens == tables.script_tokens
            &&& after.tracked_agent == if selected_agent {
                Some(started.terminal)
            } else {
                tables.tracked_agent
            }
            &&& other != k ==> {
                &&& after.commands.contains_key(other) == tables.commands.contains_key(other)
                &&& after.resume_commands.contains_key(other)
                    == tables.resume_commands.contains_key(other)
                &&& after.script_tokens.contains(other) == tables.script_tokens.contains(other)
            }
            &&& after.live == tables.live
            &&& after.bindings == tables.bindings
            &&& after.groups == tables.groups
        }),
{
}

} // verus!
