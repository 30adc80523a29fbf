//! Sessions: environments, backends, watches and plugins of a window, and the sessions
//! that wait for their backend.
use std::sync::Arc;
use vstd::prelude::*;

use crate::authority::AuthoritySpec;
use crate::authority::RemoteAgentSpec;
use crate::authority::TrustLevel;
use crate::authority::WorkspaceRoot;
use crate::command::PluginCommandContext;
use crate::command::PluginLoadProvenance;
use crate::dormant::dormant_shell;
use crate::dormant::promoted_window;
use crate::dormant::promotion_failure;
use crate::editor::DormantRemote;
use crate::editor::EditorModel;
use crate::effects::Effect;
use crate::effects::EffectModel;
use crate::effects::PluginResponse;
use crate::effects::RemoteAttachMode;
use crate::effects::RemoteAttachOwner;
use crate::effects::WatchOwner;
use crate::ids::JsCallbackId;
use crate::ids::WindowId;
use crate::laws::privileges::asked;
use crate::laws::privileges::owner;
use crate::laws::privileges::turned_down;
use crate::notice::Notice;
use crate::notice::Rejection;
use crate::plugin_lifecycle::PluginListing;
use crate::window::Window;
use crate::window::WindowModel;
use crate::windows::WindowSeed;

verus! {

/// An environment is activated in a window whose project is trusted, and in no other;
/// the language servers follow. Where it is not trusted the user is told.
pub proof fn an_environment_needs_trust(
    editor: EditorModel,
    window: WindowId,
    snippet: String,
    dir: Option<String>,
)
    requires
        editor.windows.contains_key(window.0),
    ensures
        ({
            let before = editor.windows[window.0];
            let after = editor.env_set(window, snippet, dir);
            let now = after.windows[window.0];
            if before.authority.trust == TrustLevel::Trusted {
                &&& now.authority.env_active
                &&& after.outbox == editor.outbox.push(
                    EffectModel::Plain(Effect::SetEnv { window, snippet, dir }),
                ).push(EffectModel::Plain(Effect::RefreshLsp { window }))
            } else {
                &&& now.authority.env_active == before.authority.env_active
                &&& after.outbox == editor.outbox
                &&& now.ui.status_message == Some(Notice::EnvironmentNotTrusted)
            }
        }),
{
}

/// An environment that is cleared is not active any more; the language servers follow
/// where one was.
pub proof fn a_cleared_environment_is_gone(editor: EditorModel, window: WindowId)
    requires
        editor.windows.contains_key(window.0),
    ensures
        ({
            let after = editor.env_cleared(window);
            let cleared = editor.outbox.push(EffectModel::Plain(Effect::ClearEnv { window }));
            &&& !after.windows[window.0].authority.env_active
            &&& after.outbox == if editor.windows[window.0].authority.env_active {
                cleared.push(EffectModel::Plain(Effect::RefreshLsp { window }))
            } else {
                cleared
            }
        }),
{
}

/// A path is watched for the window that a sender acts for and with the backend that the
/// window has, where that is local and somebody can be told. A watch is given up for the
/// same owner.
pub proof fn a_path_is_watched_for_its_window(
    editor: EditorModel,
    path: String,
    recursive: bool,
    request_id: u64,
    handle: u64,
    context: PluginCommandContext,
    window: WindowId,
)
    requires
        match context.window_scope {
            Some(scope) => scope == window,
            None => match context.source_window {
                Some(source) => source == window,
                None => editor.active_window == window,
            },
        },
    ensures
        ({
            let after = editor.watching(path, recursive, request_id, context);
            let there = editor.windows.contains_key(window.0);
            let remote = editor.windows[window.0].authority_spec is RemoteAgent;
            let keeper = WatchOwner {
                window,
                authority: editor.windows[window.0].authority.stamp,
                instance: if context.provenance == PluginLoadProvenance::Internal {
                    None
                } else {
                    Some(context.plugin_instance_id)
                },
            };
            &&& !there ==> after == asked(
                editor,
                Effect::Respond(
                    PluginResponse::WatchPathRejected {
                        request_id,
                        reason: Rejection::WatchWindowClosed,
                    },
                ),
            )
            &&& there && remote ==> after == asked(
                editor,
                Effect::Respond(
                    PluginResponse::WatchPathRejected {
                        request_id,
                        reason: Rejection::WatchRemoteUnavailable,
                    },
                ),
            )
            &&& there && !remote && !editor.config.bridge ==> after == asked(
                editor,
                Effect::Respond(
                    PluginResponse::WatchPathRejected {
                        request_id,
                        reason: Rejection::WatchNoBridge,
                    },
                ),
            )
            &&& there && !remote && editor.config.bridge ==> after == asked(
                editor,
                Effect::Watch { owner: keeper, path, recursive, request_id },
            )
            &&& there ==> editor.unwatching(handle, context) == asked(
                editor,
                Effect::Unwatch { owner: keeper, handle },
            )
        }),
{
}

/// A file is opened in a window in the background where one is named, and otherwise in
/// the one in the foreground. A preview shows a window in the background or nothing.
pub proof fn files_and_previews_go_to_open_windows(
    editor: EditorModel,
    path: String,
    id: WindowId,
)
    ensures
        ({
            let behind = id != editor.active_window && editor.windows.contains_key(id.0);
            &&& behind ==> editor.file_routed(path, Some(id)) == asked(
                editor,
                Effect::OpenFile { path, window: Some(id) },
            )
            &&& !behind ==> editor.file_routed(path, Some(id)) == asked(
                editor,
                Effect::OpenFile { path, window: None },
            )
            &&& editor.file_routed(path, None) == asked(
                editor,
                Effect::OpenFile { path, window: None },
            )
            &&& editor.previewing(Some(id)).preview_window_id == if behind {
                Some(id)
            } else {
                None
            }
            &&& editor.previewing(None).preview_window_id is None
        }),
{
}

/// A plugin orders the walk over the windows; an empty order gives the plain one back.
pub proof fn a_plugin_orders_the_walk(editor: EditorModel, ids: Vec<WindowId>)
    ensures
        ids@.len() == 0 ==> editor.cycling(ids).window_cycle_order is None,
        ids@.len() > 0 ==> editor.cycling(ids).window_cycle_order == Some(ids@),
        editor.cycling(ids).outbox == editor.outbox,
{
}

/// A window is opened at an absolute path only.
pub proof fn a_window_is_opened_at_an_absolute_path(
    editor: EditorModel,
    root: Arc<WorkspaceRoot>,
    label: String,
)
    ensures
        editor.window_asked(root, label) == if root.absolute {
            asked(editor, Effect::OpenWindow { root, label })
        } else {
            editor
        },
{
}

/// A window whose backend is cleared is local again, holds no connection, and is in the
/// foreground.
pub proof fn a_cleared_backend_is_local(editor: EditorModel, id: WindowId)
    requires
        editor.windows.contains_key(id.0),
    ensures
        ({
            let after = editor.authority_cleared(id);
            &&& after.windows[id.0].authority_spec == AuthoritySpec::Local
            &&& !after.remote.keepalives.contains(id.0)
            &&& after.active_window == id
            &&& after.outbox.last() == EffectModel::Plain(
                Effect::InstallAuthority { window: id, local: true },
            )
        }),
{
}

/// The bundled Orchestrator is unloaded and reloaded by the host only; any other plugin
/// by anybody. A reload says whether the plugin's own files are to be checked.
pub proof fn bundled_plugins_belong_to_the_host(
    editor: EditorModel,
    name: String,
    callback: JsCallbackId,
    context: PluginCommandContext,
)
    ensures
        ({
            let bundled = name@ == "orchestrator"@;
            let host = context.provenance == PluginLoadProvenance::Internal;
            &&& editor.unloading(name, callback, context) == if bundled && !host {
                turned_down(editor, context, callback.0, Rejection::UnloadBundledDenied)
            } else {
                asked(editor, Effect::UnloadPlugin { name, callback })
            }
            &&& editor.reloading(name, callback, context) == if bundled && !host {
                turned_down(editor, context, callback.0, Rejection::ReloadBundledDenied)
            } else {
                asked(
                    editor,
                    Effect::ReloadPlugin { name, callback, owner: owner(context), bundled },
                )
            }
        }),
{
}

/// Where a bundled plugin lies is not shown, and where any other lies is.
pub proof fn the_place_of_a_bundled_plugin_is_hidden(plugin: PluginListing)
    ensures
        plugin.name@ == "orchestrator"@ ==> plugin.shown_path() == "<bundled>"@,
        plugin.name@ != "orchestrator"@ ==> plugin.shown_path() == plugin.path@,
{
}

/// The window of a session that waits for its backend has the session's label, root,
/// backend and values, and can be read only.
pub proof fn a_dormant_session_is_shown_as_it_was_saved(
    id: WindowId,
    descriptor: DormantRemote,
    seed: WindowSeed,
    width: u16,
    height: u16,
)
    ensures
        ({
            let shell = dormant_shell(id, descriptor, seed, width, height);
            &&& shell.id == id
            &&& shell.label == descriptor.label@
            &&& shell.root == descriptor.root
            &&& shell.authority_spec == descriptor.authority_spec
            &&& shell.plugin_state == descriptor.plugin_state@
            &&& shell.documents.active_buffer == seed.scratch.buffer
            &&& shell.documents.metadata[seed.scratch.buffer.0].read_only
            &&& shell.documents.buffers[seed.scratch.buffer.0] == seed.scratch.state
        }),
{
}

/// A session whose backend is connected becomes a window with the session's number, label
/// and identity and the new root and backend. It has the buffers and terminals that were
/// saved, and the values of its plugins where it may be restored.
pub proof fn a_connected_session_becomes_its_window(
    id: WindowId,
    descriptor: DormantRemote,
    restored: Option<WindowModel>,
    root: Arc<WorkspaceRoot>,
    seed: WindowSeed,
    spec: AuthoritySpec,
    restore_allowed: bool,
    width: u16,
    height: u16,
)
    ensures
        ({
            let window = promoted_window(
                id,
                descriptor,
                restored,
                root,
                seed,
                spec,
                restore_allowed,
                width,
                height,
            );
            let named = descriptor.stable_id is Some && descriptor.stable_id->0@.len() > 0;
            &&& window.id == id
            &&& window.label == descriptor.label@
            &&& window.root == root
            &&& window.authority == seed.authority
            &&& window.authority_spec == spec
            &&& named ==> window.stable_id == descriptor.stable_id->0@
            &&& !named && restored is None ==> window.stable_id == seed.stable_id@
            &&& restored is Some ==> window.documents == restored->0.documents
                && window.terminals == restored->0.terminals
            &&& restored is None ==> window.documents.active_buffer == seed.scratch.buffer
            &&& restore_allowed ==> window.plugin_state == descriptor.plugin_state@
            &&& !restore_allowed && restored is None ==> window.plugin_state.len() == 0
            &&& window.ui.status_message == Some(Notice::ConnectedTo { label: descriptor.label })
        }),
{
}

/// A session is not promoted where what was saved cannot be read, or is not found though
/// it has an identity; a session that is not to be restored, or has no identity, does not
/// fail for that.
pub proof fn a_promotion_fails_where_something_is_missing(
    descriptor: DormantRemote,
    restore_allowed: bool,
    loaded: Result<Option<Window>, String>,
)
    ensures
        ({
            let named = descriptor.stable_id is Some && descriptor.stable_id->0@.len() > 0;
            let failure = promotion_failure(descriptor, restore_allowed, loaded);
            &&& !restore_allowed ==> failure is None
            &&& restore_allowed && loaded is Err ==> failure == Some(
                Rejection::Text(loaded->Err_0),
            )
            &&& restore_allowed && loaded is Ok && loaded->Ok_0 is Some ==> failure is None
            &&& restore_allowed && loaded is Ok && loaded->Ok_0 is None ==> failure == if named {
                Some(Rejection::WorkspaceNotFound { id: descriptor.stable_id->0 })
            } else {
                None
            }
        }),
{
}

/// A session that became a window holds a connection. The shared snapshot shows it, and
/// where it is in the foreground everything follows its backend.
pub proof fn a_promoted_session_is_connected(
    editor: EditorModel,
    id: WindowId,
    window: WindowModel,
    previous_label: String,
)
    ensures
        ({
            let connected = editor.connected(id, window);
            let after = connected.refreshed_after_promotion(id, previous_label);
            &&& connected.windows[id.0] == window
            &&& connected.remote.keepalives.contains(id.0)
            &&& editor.active_window == id ==> after.outbox.len() == editor.outbox.len() + 4
                && after.outbox[editor.outbox.len() as int] == EffectModel::Plain(
                Effect::AdoptAuthority { previous_label },
            ) && after.outbox.last() == EffectModel::Plain(Effect::Relayout)
            &&& editor.active_window != id ==> after.outbox.len() == editor.outbox.len() + 1
        }),
{
}

/// A window reconnects to the host that it is on, as a reconnect of that window, under an
/// attempt of its own, and says that it connects. A claim that is not valid fails the
/// attempt.
pub proof fn a_reconnect_goes_to_the_window_s_own_host(
    editor: EditorModel,
    id: WindowId,
    spec: Arc<RemoteAgentSpec>,
)
    requires
        editor.windows.contains_key(id.0),
        editor.config.runtime,
        editor.config.bridge,
        editor.remote.next_attempt < u64::MAX,
        !editor.remote.reconnects.contains_key(id.0),
    ensures
        ({
            let after = editor.connecting(
                spec,
                RemoteAttachOwner::Reconnect { window: id },
                true,
                None,
            );
            let attempt = editor.remote.next_attempt;
            &&& after.remote.attempts.contains_key(attempt)
            &&& after.remote.attempts[attempt] == (RemoteAttachOwner::Reconnect { window: id })
            &&& after.remote.reconnects.contains_key(id.0)
            &&& after.remote.reconnects[id.0] == attempt
            &&& after.remote.next_attempt == attempt + 1
            &&& if spec.identity is Invalid {
                after.outbox == editor.outbox.push(
                    EffectModel::Plain(
                        Effect::FailConnect { attempt, reason: Rejection::RemoteIdentityInvalid },
                    ),
                )
            } else {
                &&& after.outbox == editor.outbox.push(
                    EffectModel::Plain(
                        Effect::Connect {
                            attempt,
                            user: spec.transport.spec_user(),
                            spec,
                            mode: RemoteAttachMode::Reconnect { window: id },
                        },
                    ),
                )
                &&& after.windows[id.0].ui.status_message == Some(Notice::Connecting { spec })
            }
        }),
{
    reveal(EditorModel::connecting);
}

} // verus!
