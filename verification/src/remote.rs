//! Remote sessions: connecting, reconnecting, and sessions that lie dormant.
use std::sync::Arc;
use vstd::prelude::*;

use crate::authority::AuthoritySpec;
use crate::authority::IdentityClaim;
use crate::authority::RemoteAgentSpec;
use crate::editor::Editor;
use crate::editor::EditorModel;
use crate::editor::RemoteModel;
use crate::effects::CallbackOwner;
use crate::effects::Effect;
use crate::effects::RemoteAttachMode;
use crate::effects::RemoteAttachOwner;
use crate::effects::RemoteInitialState;
use crate::ids::JsCallbackId;
use crate::ids::PluginInstanceId;
use crate::ids::WindowId;
use crate::notice::Notice;
use crate::notice::Rejection;
use crate::window::UiModel;
use crate::window::WindowModel;

verus! {

impl RemoteAttachOwner {
    /// The window that the connection is for.
    pub open spec fn spec_window(self) -> WindowId {
        match self {
            RemoteAttachOwner::Plugin { window, .. } => window,
            RemoteAttachOwner::Reconnect { window } => window,
            RemoteAttachOwner::Switch { window } => window,
        }
    }

    /// The window that the connection is for.
    pub fn window(&self) -> (window: WindowId)
        ensures
            window == self.spec_window(),
    {
        match self {
            RemoteAttachOwner::Plugin { window, .. } => *window,
            RemoteAttachOwner::Reconnect { window } => *window,
            RemoteAttachOwner::Switch { window } => *window,
        }
    }
}

/// What becomes of the connection that `owner` waits for.
pub open spec fn attach_mode(
    spec: RemoteAgentSpec,
    owner: RemoteAttachOwner,
    activate: bool,
    initial_state: Option<RemoteInitialState>,
) -> RemoteAttachMode {
    match owner {
        RemoteAttachOwner::Reconnect { window } => RemoteAttachMode::Reconnect { window },
        RemoteAttachOwner::Switch { window } => RemoteAttachMode::Switch { window },
        RemoteAttachOwner::Plugin { .. } => if spec.window {
            RemoteAttachMode::Window {
                label: spec.label,
                command: spec.command,
                activate,
                initial_state,
            }
        } else {
            RemoteAttachMode::Restart
        },
    }
}

impl WindowModel {
    /// This window with a connection error on record.
    pub open spec fn with_reconnect_error(self, error: Option<Arc<Rejection>>) -> WindowModel {
        WindowModel { ui: UiModel { remote_reconnect_error: error, ..self.ui }, ..self }
    }

    /// This window once a connection could not be made.
    pub open spec fn connection_failed(self, reason: Rejection) -> WindowModel {
        self.with_reconnect_error(Some(Arc::new(reason))).with_status(
            Some(Notice::ConnectionFailed { cause: Arc::new(reason) }),
        )
    }
}

impl EditorModel {
    /// Whether a reconnection of the window `id` is under way.
    pub open spec fn reconnect_inflight(self, id: WindowId) -> bool {
        self.remote.reconnects.contains_key(id.0)
    }

    /// This editor with an attempt to connect under way, and its number; none
    /// where the window is being reconnected already, or numbers have run out.
    pub open spec fn attempting(self, owner: RemoteAttachOwner) -> Option<(u64, EditorModel)> {
        let blocked = match owner {
            RemoteAttachOwner::Reconnect { window } => self.reconnect_inflight(window),
            _ => false,
        };
        if blocked || self.remote.next_attempt == u64::MAX {
            None
        } else {
            let attempt = self.remote.next_attempt;
            Some(
                (
                    attempt,
                    EditorModel {
                        remote: RemoteModel {
                            attempts: self.remote.attempts.insert(attempt, owner),
                            reconnects: match owner {
                                RemoteAttachOwner::Reconnect { window } =>
                                    self.remote.reconnects.insert(window.0, attempt),
                                _ => self.remote.reconnects,
                            },
                            next_attempt: (attempt + 1) as u64,
                            ..self.remote
                        },
                        ..self
                    },
                ),
            )
        }
    }

    /// This editor with the promise of a plugin's attach request rejected.
    pub open spec fn attach_rejected(
        self,
        instance: PluginInstanceId,
        request_id: u64,
        reason: Rejection,
    ) -> EditorModel {
        self.emitting(
            Effect::Reject {
                owner: CallbackOwner::Instance(instance),
                callback: JsCallbackId(request_id),
                reason,
            },
        )
    }

    /// This editor once a connection was asked for and there is no runtime to
    /// make it with.
    pub open spec fn connect_unavailable(self, owner: RemoteAttachOwner) -> EditorModel {
        match owner {
            RemoteAttachOwner::Plugin { instance, request_id, .. } => self.attach_rejected(
                instance,
                request_id,
                Rejection::RemoteRuntimeMissing,
            ),
            RemoteAttachOwner::Reconnect { window } => if self.has(window) {
                self.with_window(
                    window,
                    self.window(window).connection_failed(Rejection::RemoteRuntimeMissing),
                )
            } else if self.dormant_remote.contains_key(window.0) {
                self.emitting(
                    Effect::ShowDormantFailure { window, cause: Rejection::RemoteRuntimeMissing },
                )
            } else {
                self
            },
            RemoteAttachOwner::Switch { window } => if self.has(window) {
                self.with_window(
                    window,
                    self.window(window).with_status(
                        Some(
                            Notice::ProjectSwitchFailed { cause: Rejection::RemoteRuntimeMissing },
                        ),
                    ),
                )
            } else {
                self
            },
        }
    }

    /// This editor once a connection was asked for.
    #[verifier::opaque]
    pub open spec fn connecting(
        self,
        spec: Arc<RemoteAgentSpec>,
        owner: RemoteAttachOwner,
        activate: bool,
        initial_state: Option<RemoteInitialState>,
    ) -> EditorModel {
        let window = owner.spec_window();
        if owner matches RemoteAttachOwner::Plugin { instance, request_id, .. } && !self.has(
            window,
        ) {
            self.attach_rejected(
                owner->instance,
                owner->request_id,
                Rejection::AttachWindowClosed,
            )
        } else if !self.config.runtime || !self.config.bridge {
            self.connect_unavailable(owner)
        } else {
            match self.attempting(owner) {
                None => self,
                Some((attempt, begun)) => if spec.identity is Invalid {
                    begun.emitting(
                        Effect::FailConnect { attempt, reason: Rejection::RemoteIdentityInvalid },
                    )
                } else {
                    let shown = if begun.has(window) {
                        begun.with_window(
                            window,
                            begun.window(window).with_status(Some(Notice::Connecting { spec })),
                        )
                    } else {
                        begun
                    };
                    shown.emitting(
                        Effect::Connect {
                            attempt,
                            user: spec.transport.spec_user(),
                            spec,
                            mode: attach_mode(*spec, owner, activate, initial_state),
                        },
                    )
                },
            }
        }
    }

    /// This editor once the window `id` was asked to reconnect.
    pub open spec fn reconnecting(self, id: WindowId) -> EditorModel {
        if self.reconnect_inflight(id) || !self.has(id) {
            self
        } else {
            match self.window(id).authority_spec {
                AuthoritySpec::RemoteAgent(spec) => self.with_window(
                    id,
                    self.window(id).with_reconnect_error(None),
                ).connecting(
                    spec,
                    RemoteAttachOwner::Reconnect { window: id },
                    true,
                    None,
                ),
                _ => self,
            }
        }
    }

    /// This editor once the window `id` was shown: a remote session that has no
    /// connection, and is not dormant, reconnects.
    pub open spec fn woken(self, id: WindowId) -> EditorModel {
        if self.remote.keepalives.contains(id.0) || self.dormant_remote.contains_key(id.0) {
            self
        } else {
            self.reconnecting(id)
        }
    }

    /// This editor once the dormant session `id` was asked to connect.
    pub open spec fn bringing_online(self, id: WindowId) -> EditorModel {
        if !self.dormant_remote.contains_key(id.0) {
            self
        } else {
            match self.dormant_remote[id.0].authority_spec {
                AuthoritySpec::RemoteAgent(spec) => if self.reconnect_inflight(id) {
                    self
                } else {
                    let cleared = if self.has(id) {
                        self.with_window(id, self.window(id).with_reconnect_error(None))
                    } else {
                        self
                    };
                    cleared.connecting(
                        spec,
                        RemoteAttachOwner::Reconnect { window: id },
                        true,
                        None,
                    )
                },
                _ => self,
            }
        }
    }

    /// This editor with the reconnection of the window `id` given up.
    pub open spec fn reconnect_cancelled(self, id: WindowId) -> EditorModel {
        if self.reconnect_inflight(id) {
            let attempt = self.remote.reconnects[id.0];
            EditorModel {
                remote: RemoteModel {
                    reconnects: self.remote.reconnects.remove(id.0),
                    attempts: self.remote.attempts.remove(attempt),
                    ..self.remote
                },
                ..self
            }.emitting(Effect::CancelConnect { attempt })
        } else {
            self
        }
    }
}

impl Editor {
    /// Whether a reconnection of the window `id` is under way.
    pub fn remote_reconnect_inflight(&self, id: WindowId) -> (inflight: bool)
        ensures
            inflight == self@.reconnect_inflight(id),
    {
        self.remote.reconnects.contains_key(&id.0)
    }

    /// Begins an attempt to connect.
    pub fn begin_remote_attach_attempt(&mut self, owner: RemoteAttachOwner) -> (attempt: Option<u64>)
        ensures
            match old(self)@.attempting(owner) {
                Some((number, begun)) => attempt == Some(number) && final(self)@ == begun,
                None => attempt is None && final(self)@ == old(self)@,
            },
    {
        if let RemoteAttachOwner::Reconnect { window } = owner {
            if self.remote_reconnect_inflight(window) {
                return None;
            }
        }
        let attempt = self.remote.next_attempt;
        if attempt == u64::MAX {
            return None;
        }
        self.remote.attempts.insert(attempt, owner);
        if let RemoteAttachOwner::Reconnect { window } = owner {
            self.remote.reconnects.insert(window.0, attempt);
        }
        self.remote.next_attempt = attempt + 1;
        Some(attempt)
    }

    /// Rejects the promise of a plugin's attach request.
    pub fn reject_remote_attach(
        &mut self,
        instance: PluginInstanceId,
        request_id: u64,
        reason: Rejection,
    )
        ensures
            final(self)@ == old(self)@.attach_rejected(instance, request_id, reason),
    {
        self.emit(
            Effect::Reject {
                owner: CallbackOwner::Instance(instance),
                callback: JsCallbackId(request_id),
                reason,
            },
        );
    }

    /// Tells whoever waits for a connection that there is no runtime for it.
    fn report_connect_unavailable(&mut self, owner: RemoteAttachOwner)
        ensures
            final(self)@ == old(self)@.connect_unavailable(owner),
    {
        let ghost before = self@;
        match owner {
            RemoteAttachOwner::Plugin { instance, request_id, .. } => {
                self.reject_remote_attach(instance, request_id, Rejection::RemoteRuntimeMissing);
            },
            RemoteAttachOwner::Reconnect { window } => {
                match self.take_window(window) {
                    Some(mut w) => {
                        let reason = Arc::new(Rejection::RemoteRuntimeMissing);
                        w.ui.remote_reconnect_error = Some(reason.clone());
                        w.set_status_message(
                            Notice::ConnectionFailed { cause: reason },
                        );
                        self.put_window(window, w);
                        proof {
                            assert(self@.windows =~= before.connect_unavailable(owner).windows);
                        }
                    },
                    None => {
                        if self.dormant_remote.contains_key(&window.0) {
                            self.emit(
                                Effect::ShowDormantFailure {
                                    window,
                                    cause: Rejection::RemoteRuntimeMissing,
                                },
                            );
                        }
                    },
                }
            },
            RemoteAttachOwner::Switch { window } => {
                match self.take_window(window) {
                    Some(mut w) => {
                        w.set_status_message(
                            Notice::ProjectSwitchFailed { cause: Rejection::RemoteRuntimeMissing },
                        );
                        self.put_window(window, w);
                        proof {
                            assert(self@.windows =~= before.connect_unavailable(owner).windows);
                        }
                    },
                    None => {},
                }
            },
        }
    }

    /// Asks for one connection, for a plugin's request or for a window. The
    /// attempt has a number of its own, so that requests of separate plugin
    /// runtimes never get in each other's way.
    pub fn start_remote_connect(
        &mut self,
        spec: Arc<RemoteAgentSpec>,
        owner: RemoteAttachOwner,
        activate: bool,
        initial_state: Option<RemoteInitialState>,
    )
        ensures
            final(self)@ == old(self)@.connecting(spec, owner, activate, initial_state),
    {
        proof {
            reveal(EditorModel::connecting);
        }
        let window = owner.window();
        if let RemoteAttachOwner::Plugin { instance, request_id, .. } = owner {
            if !self.has_window(window) {
                self.reject_remote_attach(instance, request_id, Rejection::AttachWindowClosed);
                return ;
            }
        }
        if !self.config.runtime || !self.config.bridge {
            self.report_connect_unavailable(owner);
            return ;
        }
        let attempt = match self.begin_remote_attach_attempt(owner) {
            Some(attempt) => attempt,
            None => {
                return ;
            },
        };
        if let IdentityClaim::Invalid = &spec.identity {
            self.emit(
                Effect::FailConnect { attempt, reason: Rejection::RemoteIdentityInvalid },
            );
            return ;
        }
        let ghost begun = self@;
        match self.take_window(window) {
            Some(mut w) => {
                w.set_status_message(Notice::Connecting { spec: spec.clone() });
                self.put_window(window, w);
                proof {
                    assert(begun.without_window(window).with_window(window, w@).windows
                        =~= begun.with_window(window, w@).windows);
                }
            },
            None => {},
        }
        let mode = match owner {
            RemoteAttachOwner::Reconnect { window } => RemoteAttachMode::Reconnect { window },
            RemoteAttachOwner::Switch { window } => RemoteAttachMode::Switch { window },
            RemoteAttachOwner::Plugin { .. } => if spec.window {
                RemoteAttachMode::Window {
                    label: match &spec.label {
                        Some(label) => Some(label.clone()),
                        None => None,
                    },
                    command: match &spec.command {
                        Some(command) => Some(command.clone()),
                        None => None,
                    },
                    activate,
                    initial_state,
                }
            } else {
                RemoteAttachMode::Restart
            },
        };
        let user = spec.transport.login_user();
        self.emit(Effect::Connect { attempt, user, spec, mode });
    }

    /// Reconnects the backend of a window.
    fn start_remote_reconnect(&mut self, id: WindowId)
        ensures
            final(self)@ == old(self)@.reconnecting(id),
    {
        if self.remote_reconnect_inflight(id) {
            return ;
        }
        let ghost before = self@;
        let spec = match self.windows.get(&id.0) {
            Some(window) => match &window.authority_spec {
                AuthoritySpec::RemoteAgent(spec) => spec.clone(),
                _ => {
                    return ;
                },
            },
            None => {
                return ;
            },
        };
        match self.take_window(id) {
            Some(mut window) => {
                window.ui.remote_reconnect_error = None;
                self.put_window(id, window);
                proof {
                    assert(before.without_window(id).with_window(id, window@).windows
                        =~= before.with_window(id, window@).windows);
                }
            },
            None => {},
        }
        self.start_remote_connect(
            spec,
            RemoteAttachOwner::Reconnect { window: id },
            true,
            None,
        );
    }

    /// Reconnects a window that was just shown, where it is a remote session
    /// without a connection. A dormant session connects when it is dived into.
    pub fn reconnect_dormant_session_if_needed(&mut self, id: WindowId)
        ensures
            final(self)@ == old(self)@.woken(id),
    {
        if self.remote.keepalives.contains(&id.0) || self.dormant_remote.contains_key(&id.0) {
            return ;
        }
        self.start_remote_reconnect(id);
    }

    /// Reconnects a window because the user asked for it, even one that still
    /// holds the handle of a connection that was lost.
    pub fn force_reconnect_remote_session(&mut self, id: WindowId)
        ensures
            final(self)@ == old(self)@.reconnecting(id),
    {
        self.start_remote_reconnect(id);
    }

    /// Connects a dormant session.
    pub fn bring_dormant_remote_online(&mut self, id: WindowId)
        ensures
            final(self)@ == old(self)@.bringing_online(id),
    {
        let ghost before = self@;
        let spec = match self.dormant_remote.get(&id.0) {
            Some(descriptor) => match &descriptor.authority_spec {
                AuthoritySpec::RemoteAgent(spec) => spec.clone(),
                _ => {
                    return ;
                },
            },
            None => {
                return ;
            },
        };
        if self.remote_reconnect_inflight(id) {
            return ;
        }
        match self.take_window(id) {
            Some(mut window) => {
                window.ui.remote_reconnect_error = None;
                self.put_window(id, window);
                proof {
                    assert(before.without_window(id).with_window(id, window@).windows
                        =~= before.with_window(id, window@).windows);
                }
            },
            None => {},
        }
        self.start_remote_connect(
            spec,
            RemoteAttachOwner::Reconnect { window: id },
            true,
            None,
        );
    }

    /// Gives up the reconnection of a window.
    pub fn cancel_remote_reconnect(&mut self, id: WindowId)
        ensures
            final(self)@ == old(self)@.reconnect_cancelled(id),
    {
        let attempt = match self.remote.reconnects.get(&id.0) {
            Some(attempt) => *attempt,
            None => {
                return ;
            },
        };
        self.remote.reconnects.remove(&id.0);
        self.remote.attempts.remove(&attempt);
        self.emit(Effect::CancelConnect { attempt });
    }
}

} // verus!
