//! What is saved of workspaces: who may touch it, and how a saved window comes
//! back.
use std::collections::BTreeMap;
use std::sync::Arc;
use vstd::prelude::*;

use crate::authority::WorkspaceRoot;
use crate::command::PluginCommand;
use crate::command::PluginCommandContext;
use crate::editor::callback_owner;
use crate::editor::owner_of_callbacks;
use crate::editor::DormantRemote;
use crate::editor::Editor;
use crate::editor::EditorModel;
use crate::effects::CallbackOwner;
use crate::effects::Effect;
use crate::effects::Reply;
use crate::effects::RestoreRequest;
use crate::effects::SignalName;
use crate::ids::JsCallbackId;
use crate::ids::WindowId;
use crate::lists::first_match;
use crate::lists::is_sorted_domain;
use crate::lists::lemma_first_match_found;
use crate::lists::lemma_first_match_none;
use crate::lists::lemma_sorted_members;
use crate::lists::sorted_keys;
use crate::notice::Rejection;
use crate::permissions::context_may_manage_workspace_persistence;
use crate::permissions::may_manage_persistence;
use crate::text::same_text;
use crate::window::Window;
use crate::window::WindowModel;
use crate::window_snapshot::key_order;
use crate::windows::WindowSeed;

verus! {

/// Whether two roots are the same directory.
pub open spec fn same_root(candidate: WorkspaceRoot, root: WorkspaceRoot) -> bool {
    candidate.canonical@ == root.canonical@ || candidate.path@ == root.path@
}

/// Whether an identity is the expected one, where one is expected.
pub open spec fn is_expected(id: Option<Seq<char>>, expected: Option<String>) -> bool {
    expected matches Some(expected) ==> id == Some(expected@)
}

/// Whether a window has what is saved under a root and an identity.
pub open spec fn owns_saved(
    window: WindowModel,
    root: WorkspaceRoot,
    stable_id: Option<String>,
) -> bool {
    same_root(*window.root, root) && is_expected(Some(window.stable_id), stable_id)
}

/// Whether a dormant session has what is saved under a root and an identity.
pub open spec fn dormant_owns_saved(
    session: DormantRemote,
    root: WorkspaceRoot,
    stable_id: Option<String>,
) -> bool {
    same_root(*session.root, root) && is_expected(
        match session.stable_id {
            Some(id) => Some(id@),
            None => None,
        },
        stable_id,
    )
}

/// Whether a window was saved under a root and an identity, which is empty
/// where it has none.
pub open spec fn is_saved_as(editor: EditorModel, root: WorkspaceRoot, stable_id: Seq<char>) -> spec_fn(
    u64,
) -> bool {
    |id: u64|
        editor.windows[id].root.canonical@ == root.canonical@ && editor.windows[id].stable_id
            == stable_id
}

/// The identity that a saved window is asked for by.
pub open spec fn requested_id(stable_id: Option<String>) -> Seq<char> {
    match stable_id {
        Some(id) => id@,
        None => Seq::empty(),
    }
}

impl EditorModel {
    /// Whether any session, live or ending or dormant, has what is saved under
    /// a root and an identity.
    pub open spec fn is_saved_owned(self, root: WorkspaceRoot, stable_id: Option<String>) -> bool {
        ||| exists|id: u64| #[trigger]
            self.windows.contains_key(id) && owns_saved(self.windows[id], root, stable_id)
        ||| exists|id: u64| #[trigger]
            self.closing_windows.contains_key(id) && owns_saved(
                self.closing_windows[id],
                root,
                stable_id,
            )
        ||| exists|id: u64| #[trigger]
            self.dormant_remote.contains_key(id) && dormant_owns_saved(
                self.dormant_remote[id],
                root,
                stable_id,
            )
    }

    /// The window that was saved under a root and an identity.
    pub open spec fn saved_window(self, root: WorkspaceRoot, stable_id: Seq<char>) -> Option<u64> {
        first_match(key_order(self.windows), is_saved_as(self, root, stable_id))
    }

    /// This editor with a promise answered, whoever waits for it.
    pub open spec fn replying(
        self,
        owner: CallbackOwner,
        callback: JsCallbackId,
        reply: Reply,
    ) -> EditorModel {
        self.emitting(Effect::Resolve { owner, callback, reply })
    }

    /// This editor with a promise rejected, whoever waits for it.
    pub open spec fn declining(
        self,
        owner: CallbackOwner,
        callback: JsCallbackId,
        reason: Rejection,
    ) -> EditorModel {
        self.emitting(Effect::Reject { owner, callback, reason })
    }

    /// This editor with a window shown, where that is asked for.
    pub open spec fn shown_if(self, id: WindowId, activate: bool) -> EditorModel {
        if activate {
            self.showing(id)
        } else {
            self
        }
    }

    /// Whether `after` is this editor with a window handed to whoever asked
    /// for it.
    pub open spec fn is_window_handed(
        self,
        owner: CallbackOwner,
        callback: JsCallbackId,
        id: WindowId,
        after: EditorModel,
    ) -> bool {
        exists|stable_id: String|
            {
                &&& stable_id@ == (if self.has(id) {
                    self.window(id).stable_id
                } else {
                    Seq::empty()
                })
                &&& after == #[trigger] self.replying(
                    owner,
                    callback,
                    Reply::Window { window: id, stable_id },
                )
            }
    }
}

impl Window {
    /// Whether this window has what is saved under a root and an identity.
    fn owns(&self, root: &WorkspaceRoot, stable_id: &Option<String>) -> (owns: bool)
        ensures
            owns == owns_saved(self@, *root, *stable_id),
    {
        roots_match(&self.root, root) && match stable_id {
            Some(expected) => same_text(self.stable_id.as_str(), expected.as_str()),
            None => true,
        }
    }
}

/// Whether two roots are the same directory.
fn roots_match(candidate: &WorkspaceRoot, root: &WorkspaceRoot) -> (same: bool)
    ensures
        same == same_root(*candidate, *root),
{
    same_text(candidate.canonical.as_str(), root.canonical.as_str()) || same_text(
        candidate.path.as_str(),
        root.path.as_str(),
    )
}

/// Whether any of the windows has what is saved under a root and an identity.
fn any_window_owns(
    windows: &BTreeMap<u64, Window>,
    root: &WorkspaceRoot,
    stable_id: &Option<String>,
) -> (owned: bool)
    ensures
        owned == exists|id: u64| #[trigger]
            windows@.contains_key(id) && owns_saved(windows@[id]@, *root, *stable_id),
{
    let ids = sorted_keys(windows);
    let mut at: usize = 0;
    while at < ids.len()
        invariant
            at <= ids.len(),
            is_sorted_domain(ids@, windows@),
            forall|i: int|
                0 <= i < at ==> !owns_saved(windows@[#[trigger] ids@[i]]@, *root, *stable_id),
        decreases ids.len() - at,
    {
        let id = ids[at];
        proof {
            assert(ids@.contains(id));
        }
        if let Some(window) = windows.get(&id) {
            if window.owns(root, stable_id) {
                proof {
                    assert(windows@.contains_key(id));
                }
                return true;
            }
        }
        at = at + 1;
    }
    proof {
        assert forall|id: u64| #[trigger] windows@.contains_key(id) implies !owns_saved(
            windows@[id]@,
            *root,
            *stable_id,
        ) by {
            assert(ids@.contains(id));
            let i = ids@.index_of(id);
            assert(ids@[i] == id);
        }
    }
    false
}

impl Editor {
    /// Whether a dormant session has what is saved under a root and an
    /// identity.
    fn any_dormant_owns(&self, root: &WorkspaceRoot, stable_id: &Option<String>) -> (owned: bool)
        ensures
            owned == exists|id: u64| #[trigger]
                self@.dormant_remote.contains_key(id) && dormant_owns_saved(
                    self@.dormant_remote[id],
                    *root,
                    *stable_id,
                ),
    {
        let ids = sorted_keys(&self.dormant_remote);
        let mut at: usize = 0;
        while at < ids.len()
            invariant
                at <= ids.len(),
                is_sorted_domain(ids@, self@.dormant_remote),
                forall|i: int|
                    0 <= i < at ==> !dormant_owns_saved(
                        self@.dormant_remote[#[trigger] ids@[i]],
                        *root,
                        *stable_id,
                    ),
            decreases ids.len() - at,
        {
            let id = ids[at];
            proof {
                assert(ids@.contains(id));
            }
            if let Some(session) = self.dormant_remote.get(&id) {
                let expected = match stable_id {
                    Some(expected) => match &session.stable_id {
                        Some(known) => same_text(known.as_str(), expected.as_str()),
                        None => false,
                    },
                    None => true,
                };
                if expected && roots_match(&session.root, root) {
                    proof {
                        assert(self@.dormant_remote.contains_key(id));
                    }
                    return true;
                }
            }
            at = at + 1;
        }
        proof {
            assert forall|id: u64| #[trigger]
                self@.dormant_remote.contains_key(id) implies !dormant_owns_saved(
                self@.dormant_remote[id],
                *root,
                *stable_id,
            ) by {
                assert(ids@.contains(id));
                let i = ids@.index_of(id);
                assert(ids@[i] == id);
            }
        }
        false
    }

    /// Whether any session, live or ending or dormant, has what is saved under
    /// a root and an identity.
    pub fn workspace_persistence_is_owned(&self, root: &WorkspaceRoot, stable_id: &Option<String>) -> (owned:
        bool)
        ensures
            owned == self@.is_saved_owned(*root, *stable_id),
    {
        let live = any_window_owns(&self.windows, root, stable_id);
        let ending = any_window_owns(&self.closing_windows, root, stable_id);
        let dormant = self.any_dormant_owns(root, stable_id);
        proof {
            assert forall|id: u64| #[trigger] self@.windows.contains_key(id) implies self@.windows[id]
                == self.windows@[id]@ && self.windows@.contains_key(id) by {}
            assert forall|id: u64| #[trigger] self.windows@.contains_key(
                id,
            ) implies self@.windows.contains_key(id) by {}
            assert forall|id: u64| #[trigger]
                self@.closing_windows.contains_key(id) implies self@.closing_windows[id]
                == self.closing_windows@[id]@ && self.closing_windows@.contains_key(id) by {}
            assert forall|id: u64| #[trigger] self.closing_windows@.contains_key(
                id,
            ) implies self@.closing_windows.contains_key(id) by {}
        }
        live || ending || dormant
    }

    /// Lets the bundled Orchestrator, and nobody else, read or change what is
    /// saved of workspaces.
    pub(crate) fn manage_workspace(
        &mut self,
        command: PluginCommand,
        callback: JsCallbackId,
        denial: Rejection,
        context: &PluginCommandContext,
    )
        ensures
            final(self)@ == old(self)@.managing(command, callback, denial, *context),
    {
        let active = self.is_plugin_instance_active(context.plugin_instance_id);
        if context_may_manage_workspace_persistence(context, active) {
            self.emit(Effect::ManageWorkspace { owner: owner_of_callbacks(context), command });
        } else {
            self.reject_callback_for_context(context, callback, denial);
        }
    }

    /// Deletes what is saved of a workspace, where no session has it.
    pub fn handle_forget_workspace_persistence(
        &mut self,
        root: Arc<WorkspaceRoot>,
        stable_id: Option<String>,
        callback: JsCallbackId,
        context: &PluginCommandContext,
    )
        ensures
            final(self)@ == old(self)@.forgetting(root, stable_id, callback, *context),
    {
        let active = self.is_plugin_instance_active(context.plugin_instance_id);
        let empty = match &stable_id {
            Some(id) => id.as_str().unicode_len() == 0,
            None => false,
        };
        if !context_may_manage_workspace_persistence(context, active) {
            self.reject_callback_for_context(
                context,
                callback,
                Rejection::PersistenceForgetDenied,
            );
        } else if empty {
            self.reject_callback_for_context(context, callback, Rejection::StableIdEmpty);
        } else if self.workspace_persistence_is_owned(&root, &stable_id) {
            self.reject_callback_for_context(context, callback, Rejection::PersistenceOwned);
        } else {
            self.emit(
                Effect::ManageWorkspace {
                    owner: owner_of_callbacks(context),
                    command: PluginCommand::ForgetWorkspacePersistence {
                        root,
                        stable_id,
                        callback_id: callback,
                    },
                },
            );
        }
    }

    /// Answers the sender of a command on what is saved of workspaces, once
    /// the host has done it.
    pub fn workspace_managed(
        &mut self,
        owner: CallbackOwner,
        callback: JsCallbackId,
        outcome: Result<(), String>,
    )
        ensures
            final(self)@ == match outcome {
                Ok(_) => old(self)@.replying(owner, callback, Reply::Null),
                Err(error) => old(self)@.declining(owner, callback, Rejection::Text(error)),
            },
    {
        match outcome {
            Ok(_) => self.emit(Effect::Resolve { owner, callback, reply: Reply::Null }),
            Err(error) => self.emit(
                Effect::Reject { owner, callback, reason: Rejection::Text(error) },
            ),
        }
    }

    /// The window that was saved under a root and an identity.
    fn find_saved_window(&self, root: &WorkspaceRoot, stable_id: &str) -> (found: Option<WindowId>)
        ensures
            match self@.saved_window(*root, stable_id@) {
                Some(id) => found == Some(WindowId(id)) && self@.has(WindowId(id)),
                None => found is None,
            },
    {
        let ids = sorted_keys(&self.windows);
        let ghost wanted = is_saved_as(self@, *root, stable_id@);
        proof {
            lemma_sorted_members(ids@, |k: u64| self@.windows.contains_key(k));
        }
        let mut at: usize = 0;
        while at < ids.len()
            invariant
                at <= ids.len(),
                ids@ == key_order(self@.windows),
                is_sorted_domain(ids@, self@.windows),
                wanted == is_saved_as(self@, *root, stable_id@),
                forall|i: int| 0 <= i < at ==> !wanted(#[trigger] ids@[i]),
            decreases ids.len() - at,
        {
            let id = ids[at];
            proof {
                assert(ids@.contains(id));
            }
            if let Some(window) = self.windows.get(&id) {
                if same_text(window.root.canonical.as_str(), root.canonical.as_str()) && same_text(
                    window.stable_id.as_str(),
                    stable_id,
                ) {
                    proof {
                        lemma_first_match_found(ids@, wanted, at as int);
                    }
                    return Some(WindowId(id));
                }
            }
            at = at + 1;
        }
        proof {
            lemma_first_match_none(ids@, wanted);
        }
        None
    }

    /// Hands a window to whoever asked for it.
    fn hand_window(&mut self, owner: CallbackOwner, callback: JsCallbackId, id: WindowId)
        ensures
            old(self)@.is_window_handed(owner, callback, id, final(self)@),
    {
        let ghost before = self@;
        let stable_id = match self.windows.get(&id.0) {
            Some(window) => window.stable_id.clone(),
            None => String::new(),
        };
        let ghost named = stable_id;
        self.emit(
            Effect::Resolve { owner, callback, reply: Reply::Window { window: id, stable_id } },
        );
        proof {
            assert(self@ == before.replying(
                owner,
                callback,
                Reply::Window { window: id, stable_id: named },
            ));
        }
    }

    /// Brings a saved window back. One that is open already is only shown.
    pub fn handle_restore_workspace_window(
        &mut self,
        root: Arc<WorkspaceRoot>,
        label: String,
        stable_id: Option<String>,
        activate: bool,
        callback: JsCallbackId,
        context: &PluginCommandContext,
    )
        requires
            old(self)@.has_active(),
        ensures
            old(self)@.is_restore_requested(
                root,
                label,
                stable_id,
                activate,
                callback,
                *context,
                final(self)@,
            ),
    {
        let active = self.is_plugin_instance_active(context.plugin_instance_id);
        if !context_may_manage_workspace_persistence(context, active) {
            self.reject_callback_for_context(context, callback, Rejection::WindowRestoreDenied);
            return ;
        }
        let empty = match &stable_id {
            Some(id) => id.as_str().unicode_len() == 0,
            None => false,
        };
        if !root.absolute || empty {
            self.reject_callback_for_context(
                context,
                callback,
                Rejection::RestoreArgumentsInvalid,
            );
            return ;
        }
        let requested = match &stable_id {
            Some(id) => id.clone(),
            None => String::new(),
        };
        let owner = owner_of_callbacks(context);
        match self.find_saved_window(&root, requested.as_str()) {
            Some(existing) => {
                if activate {
                    self.set_active_window(existing);
                }
                self.hand_window(owner, callback, existing);
            },
            None => {
                self.emit(
                    Effect::FindWorkspace {
                        request: RestoreRequest {
                            owner,
                            callback,
                            root,
                            label,
                            stable_id,
                            activate,
                        },
                    },
                );
            },
        }
    }

    /// Rejects the return of a saved window of which nothing was found, or
    /// which could not be read.
    pub fn workspace_not_found(&mut self, request: &RestoreRequest, error: Option<String>)
        ensures
            final(self)@ == old(self)@.declining(
                request.owner,
                request.callback,
                match error {
                    Some(error) => Rejection::Text(error),
                    None => Rejection::PersistenceMissing,
                },
            ),
    {
        let reason = match error {
            Some(error) => Rejection::Text(error),
            None => Rejection::PersistenceMissing,
        };
        self.emit(Effect::Reject { owner: request.owner, callback: request.callback, reason });
    }

    /// Opens the window that a saved one comes back to.
    pub fn workspace_found(&mut self, request: RestoreRequest, seed: WindowSeed) -> (id: WindowId)
        requires
            old(self)@.next_window_id < u64::MAX,
        ensures
            id == WindowId(old(self)@.next_window_id),
            final(self)@ == old(self)@.opening(request.root, request.label@, seed).emitting(
                Effect::RestoreWorkspace { window: id, request },
            ),
    {
        let id = self.create_window_with_authority(
            request.root.clone(),
            request.label.clone(),
            seed,
        );
        self.emit(Effect::RestoreWorkspace { window: id, request });
        id
    }

    /// Hands a window that has come back to whoever asked for it, or drops it
    /// where it could not be restored.
    pub fn workspace_restored(
        &mut self,
        id: WindowId,
        request: &RestoreRequest,
        outcome: Result<bool, String>,
    )
        requires
            old(self)@.has_active(),
        ensures
            match outcome {
                Ok(true) => old(self)@.shown_if(id, request.activate).is_window_handed(
                    request.owner,
                    request.callback,
                    id,
                    final(self)@,
                ),
                Ok(false) => final(self)@ == old(self)@.restore_undone(id).declining(
                    request.owner,
                    request.callback,
                    Rejection::PersistenceNotRestored,
                ),
                Err(error) => final(self)@ == old(self)@.restore_undone(id).declining(
                    request.owner,
                    request.callback,
                    Rejection::Text(error),
                ),
            },
    {
        let reason = match outcome {
            Ok(restored) => if restored {
                if request.activate {
                    self.set_active_window(id);
                }
                self.hand_window(request.owner, request.callback, id);
                return ;
            } else {
                Rejection::PersistenceNotRestored
            },
            Err(error) => Rejection::Text(error),
        };
        self.handle_signal_window(id, SignalName::Kill);
        let ghost signalled = self@;
        let dropped = self.take_window(id);
        proof {
            if dropped is None {
                assert(signalled.without_window(id).windows =~= signalled.windows);
            }
        }
        self.emit(Effect::SessionDropped { window: id });
        self.emit(Effect::Reject { owner: request.owner, callback: request.callback, reason });
    }
}

impl EditorModel {
    /// This editor once a command on what is saved of workspaces was let
    /// through or denied.
    pub open spec fn managing(
        self,
        command: PluginCommand,
        callback: JsCallbackId,
        denial: Rejection,
        context: PluginCommandContext,
    ) -> EditorModel {
        if may_manage_persistence(context, self.instance_active(context.plugin_instance_id)) {
            self.emitting(
                Effect::ManageWorkspace { owner: callback_owner(context), command },
            )
        } else {
            self.rejecting(context, callback, denial)
        }
    }

    /// This editor once what is saved of a workspace was to be deleted.
    pub open spec fn forgetting(
        self,
        root: Arc<WorkspaceRoot>,
        stable_id: Option<String>,
        callback: JsCallbackId,
        context: PluginCommandContext,
    ) -> EditorModel {
        if !may_manage_persistence(context, self.instance_active(context.plugin_instance_id)) {
            self.rejecting(context, callback, Rejection::PersistenceForgetDenied)
        } else if stable_id is Some && stable_id->0@.len() == 0 {
            self.rejecting(context, callback, Rejection::StableIdEmpty)
        } else if self.is_saved_owned(*root, stable_id) {
            self.rejecting(context, callback, Rejection::PersistenceOwned)
        } else {
            self.emitting(
                Effect::ManageWorkspace {
                    owner: callback_owner(context),
                    command: PluginCommand::ForgetWorkspacePersistence {
                        root,
                        stable_id,
                        callback_id: callback,
                    },
                },
            )
        }
    }

    /// Whether `after` is this editor once a saved window was asked for.
    pub open spec fn is_restore_requested(
        self,
        root: Arc<WorkspaceRoot>,
        label: String,
        stable_id: Option<String>,
        activate: bool,
        callback: JsCallbackId,
        context: PluginCommandContext,
        after: EditorModel,
    ) -> bool {
        if !may_manage_persistence(context, self.instance_active(context.plugin_instance_id)) {
            after == self.rejecting(context, callback, Rejection::WindowRestoreDenied)
        } else if !root.absolute || (stable_id is Some && stable_id->0@.len() == 0) {
            after == self.rejecting(context, callback, Rejection::RestoreArgumentsInvalid)
        } else {
            match self.saved_window(*root, requested_id(stable_id)) {
                Some(id) => self.shown_if(WindowId(id), activate).is_window_handed(
                    callback_owner(context),
                    callback,
                    WindowId(id),
                    after,
                ),
                None => after == self.emitting(
                    Effect::FindWorkspace {
                        request: RestoreRequest {
                            owner: callback_owner(context),
                            callback,
                            root,
                            label,
                            stable_id,
                            activate,
                        },
                    },
                ),
            }
        }
    }

    /// This editor without a window that could not be restored.
    pub open spec fn restore_undone(self, id: WindowId) -> EditorModel {
        self.signalled(id, SignalName::Kill).without_window(id).emitting(
            Effect::SessionDropped { window: id },
        )
    }
}

} // verus!
