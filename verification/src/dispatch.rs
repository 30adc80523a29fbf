//! Decides what becomes of a command that a plugin has sent, by who sent it and
//! what is left of the window it was sent for.
use vstd::prelude::*;

use crate::command::PluginCommand;
use crate::command::PluginCommandContext;
use crate::command::PluginCommandEnvelope;
use crate::command::PluginCommandPurpose;
use crate::command::PluginLoadProvenance;
use crate::command::SnapshotId;
use crate::editor::Editor;
use crate::editor::EditorModel;
use crate::effects::Effect;
use crate::effects::PluginResponse;
use crate::effects::SnapshotTarget;
use crate::handle_command::DispatchSite;
use crate::ids::PluginInstanceId;
use crate::ids::WindowId;
use crate::notice::Rejection;
use crate::permissions::callback_of;
use crate::permissions::may_dispatch;
use crate::permissions::plugin_context_may_dispatch;
use crate::permissions::reach_of;
use crate::permissions::scope_allows;
use crate::permissions::source_allows;
use crate::session_handlers::byte_length;
use crate::session_handlers::MAX_URI_BYTES;

verus! {

/// What becomes of a command.
#[derive(Debug)]
pub enum Route {
    /// The completion of an agent's script is checked against its grant.
    Complete,
    /// Nothing is done.
    Ignore,
    /// Nothing is done, and a promise that waits for it is rejected.
    Drop(Rejection),
    /// The command is carried out with no window selected for it.
    Direct,
    /// A snapshot is emptied, for the window that it showed is gone.
    Reset,
    /// A snapshot is brought up to date for a window.
    Sync(WindowId),
    /// The command is carried out for a window, which is in the foreground
    /// meanwhile where `select` says so.
    Scoped { scope: WindowId, select: bool },
}

/// What is left to do once a command was carried out for a window.
#[derive(Clone, Copy, Debug, PartialEq, Eq, Structural)]
pub struct DispatchFrame {
    /// The window that the command was carried out for.
    pub scope: WindowId,
    /// The window that was in the foreground before.
    pub previous: WindowId,
    /// The window that the command was to show.
    pub target: Option<WindowId>,
    /// Whether the command was to open and show a window.
    pub opens_active: bool,
    /// The snapshot that its sender reads, and the only window that it shows.
    pub snapshot: Option<SnapshotId>,
    pub window_scope: Option<WindowId>,
}

/// The window that a command is to show.
pub open spec fn target_of(command: PluginCommand) -> Option<WindowId> {
    match command {
        PluginCommand::SetActiveWindow { id } => Some(id),
        PluginCommand::ActivateWindow { id, .. } => Some(id),
        PluginCommand::SetActiveWindowAnimated { id, .. } => Some(id),
        _ => None,
    }
}

/// Whether a command is to open and show a window.
pub open spec fn opens_window(command: PluginCommand) -> bool {
    command matches PluginCommand::CreateWindowWithTerminal { activate, .. } && activate
}

impl PluginCommand {
    /// The window that the command is to show.
    fn target(&self) -> (target: Option<WindowId>)
        ensures
            target == target_of(*self),
    {
        match self {
            PluginCommand::SetActiveWindow { id } => Some(*id),
            PluginCommand::ActivateWindow { id, .. } => Some(*id),
            PluginCommand::SetActiveWindowAnimated { id, .. } => Some(*id),
            _ => None,
        }
    }
}

/// Whether the sender is the bundled Orchestrator and may touch every window.
pub open spec fn is_unscoped_orchestrator(context: PluginCommandContext) -> bool {
    context.window_scope is None && context.spec_is_trusted_orchestrator()
}

/// The window that a command is for, if it is for one.
pub open spec fn requested_scope(context: PluginCommandContext) -> Option<WindowId> {
    match context.window_scope {
        Some(scope) => Some(scope),
        None => context.source_window,
    }
}

/// Whether the sender may send a command for the window `scope`.
pub open spec fn is_allowed(
    scope: WindowId,
    command: PluginCommand,
    context: PluginCommandContext,
) -> bool {
    if context.spec_is_agent_script() {
        scope_allows(scope, reach_of(command))
    } else {
        source_allows(scope, reach_of(command), is_unscoped_orchestrator(context))
    }
}

impl EditorModel {
    /// Whether the window that a command was sent for is gone.
    pub open spec fn source_closed(self, context: PluginCommandContext) -> bool {
        context.source_window is Some && !self.has(context.source_window->0)
    }

    /// The window that a command is carried out for. The bundled Orchestrator
    /// goes on in the active window where its own is gone.
    pub open spec fn scope_of(self, context: PluginCommandContext) -> Option<WindowId> {
        let requested = requested_scope(context)->0;
        if self.has(requested) {
            Some(requested)
        } else if is_unscoped_orchestrator(context) && self.source_closed(context)
            && self.has_active() {
            Some(self.active_window)
        } else {
            None
        }
    }

    /// Whether the backend that a command was sent for was replaced.
    pub open spec fn is_replaced(self, scope: WindowId, context: PluginCommandContext) -> bool {
        let falls_back = is_unscoped_orchestrator(context) && self.source_closed(context)
            && context.source_window != Some(scope);
        !falls_back && context.source_authority is Some && context.source_authority->0
            != self.window(scope).authority.stamp
    }

    /// What becomes of a command for the window `scope`, which is there.
    pub open spec fn route_within(
        self,
        scope: WindowId,
        command: PluginCommand,
        context: PluginCommandContext,
    ) -> Route {
        if command is HookCompleted {
            Route::Direct
        } else if self.is_replaced(scope, context) {
            Route::Drop(Rejection::SourceAuthorityReplaced)
        } else if command is SyncSnapshot {
            Route::Sync(scope)
        } else if !is_allowed(scope, command, context) {
            Route::Drop(Rejection::OutsideSourceWindow)
        } else {
            Route::Scoped {
                scope,
                select: target_of(command) is None && !(command
                    matches PluginCommand::CloseWindow { id } && id == scope),
            }
        }
    }

    /// What becomes of a command.
    pub open spec fn route_of(
        self,
        command: PluginCommand,
        context: PluginCommandContext,
    ) -> Route {
        if command is CompleteCommand {
            if context.spec_is_agent_script() {
                Route::Complete
            } else {
                Route::Ignore
            }
        } else if !may_dispatch(context, self.instance_active(context.plugin_instance_id)) {
            Route::Drop(Rejection::InstanceReplaced)
        } else if self.source_closed(context) && (command is SetGlobalState
            || command is HookCompleted) {
            Route::Direct
        } else if requested_scope(context) is None {
            Route::Direct
        } else {
            match self.scope_of(context) {
                Some(scope) => self.route_within(scope, command, context),
                None => if command is SyncSnapshot {
                    Route::Reset
                } else {
                    Route::Drop(Rejection::SourceWindowClosed)
                },
            }
        }
    }

    /// Whether a command is carried out for the window in the foreground.
    pub open spec fn needs_active(
        self,
        command: PluginCommand,
        context: PluginCommandContext,
    ) -> bool {
        match self.route_of(command, context) {
            Route::Direct => true,
            Route::Scoped { select, .. } => !select,
            _ => false,
        }
    }

    /// This editor once a command was dropped.
    pub open spec fn dropping(
        self,
        command: PluginCommand,
        context: PluginCommandContext,
        reason: Rejection,
    ) -> EditorModel {
        match callback_of(command) {
            Some(callback) => self.rejecting(context, callback, reason),
            None => self,
        }
    }

    /// This editor once the completion of an agent's script was handed on.
    pub open spec fn completing(
        self,
        command: PluginCommand,
        context: PluginCommandContext,
    ) -> EditorModel {
        match command {
            PluginCommand::CompleteCommand { request_id, ok, output, error } => self.emitting(
                Effect::CompleteAgentScript {
                    context,
                    request_id,
                    authority: match context.source_window {
                        Some(window) => if self.has(window) {
                            Some(self.window(window).authority.stamp)
                        } else {
                            None
                        },
                        None => None,
                    },
                    ok,
                    output,
                    error,
                },
            ),
            _ => self,
        }
    }

    /// This editor once a snapshot of a window that is gone was asked for.
    pub open spec fn resetting(
        self,
        request_id: u64,
        context: PluginCommandContext,
    ) -> EditorModel {
        let reset = match context.state_snapshot {
            Some(snapshot) => self.emitting(Effect::ResetSnapshot { snapshot }),
            None => self,
        };
        reset.emitting(Effect::Respond(PluginResponse::SnapshotSynced { request_id }))
    }

    /// This editor with the snapshot of a sender brought up to date, which
    /// shows the editor as `window` sees it.
    pub open spec fn refreshing(
        self,
        snapshot: Option<SnapshotId>,
        window: WindowId,
        scope: Option<WindowId>,
    ) -> EditorModel {
        match snapshot {
            Some(snapshot) => self.emitting(
                Effect::RefreshSnapshot {
                    target: SnapshotTarget::Private(snapshot),
                    window,
                    scope,
                },
            ),
            None => self,
        }
    }

    /// This editor once a snapshot of the window `scope` was asked for.
    pub open spec fn syncing(
        self,
        scope: WindowId,
        request_id: u64,
        context: PluginCommandContext,
    ) -> EditorModel {
        self.pointing_at(scope).refreshing(
            context.state_snapshot,
            scope,
            context.window_scope,
        ).emitting(Effect::Respond(PluginResponse::SnapshotSynced { request_id })).pointing_at(
            self.active_window,
        )
    }

    /// This editor with the window in the foreground that a command is for.
    pub open spec fn selecting(self, scope: WindowId, select: bool) -> EditorModel {
        if select {
            self.pointing_at(scope)
        } else {
            self
        }
    }

    /// Whether a command that was to show a window has done so.
    pub open spec fn has_shown(self, frame: DispatchFrame) -> bool {
        (frame.target == Some(self.active_window)) || (frame.opens_active && self.active_window
            != frame.scope)
    }

    /// This editor with the sender's own snapshot brought up to date.
    pub open spec fn snapshot_refreshed(self, frame: DispatchFrame) -> EditorModel {
        if self.has(frame.scope) {
            self.pointing_at(frame.scope).refreshing(
                frame.snapshot,
                frame.scope,
                frame.window_scope,
            ).pointing_at(self.active_window)
        } else {
            self
        }
    }

    /// This editor once a command is done: the window that was in the
    /// foreground is there again, unless the command was to show another.
    pub open spec fn dispatched(self, frame: DispatchFrame) -> EditorModel {
        let refreshed = self.snapshot_refreshed(frame);
        let back = if !self.has_shown(frame) && refreshed.has(frame.previous) {
            refreshed.pointing_at(frame.previous)
        } else {
            refreshed
        };
        if back.has_active() {
            back.emitting(
                Effect::RefreshSnapshot {
                    target: SnapshotTarget::Shared,
                    window: back.active_window,
                    scope: None,
                },
            )
        } else {
            back
        }
    }
}

impl Editor {
    /// Rejects the promise that waits for a command which is not carried out.
    fn reject_dropped_async_command(
        &mut self,
        command: &PluginCommand,
        context: &PluginCommandContext,
        reason: Rejection,
    )
        ensures
            final(self)@ == old(self)@.dropping(*command, *context, reason),
    {
        if let Some(callback) = command.async_command_callback_id() {
            self.reject_callback_for_context(context, callback, reason);
        }
    }

    /// Whether a command of `context` may be carried out for the window
    /// `scope`.
    fn command_allowed(&self, scope: WindowId, command: &PluginCommand, context: &PluginCommandContext) -> (allowed:
        bool)
        ensures
            allowed == is_allowed(scope, *command, *context),
    {
        if context.is_agent_script() {
            command.scoped_plugin_command_allowed(scope)
        } else {
            let trusted = context.window_scope.is_none() && context.is_trusted_orchestrator();
            command.source_plugin_command_allowed(scope, trusted)
        }
    }

    /// Whether the window that a command was sent for is gone.
    fn is_source_closed(&self, context: &PluginCommandContext) -> (closed: bool)
        ensures
            closed == self@.source_closed(*context),
    {
        match context.source_window {
            Some(source) => !self.has_window(source),
            None => false,
        }
    }

    /// What becomes of a command for the window `scope`.
    fn find_route_within(
        &self,
        scope: WindowId,
        command: &PluginCommand,
        context: &PluginCommandContext,
    ) -> (route: Route)
        requires
            self@.has(scope),
        ensures
            route == self@.route_within(scope, *command, *context),
    {
        if let PluginCommand::HookCompleted { .. } = command {
            return Route::Direct;
        }
        let own_source = match context.source_window {
            Some(source) => source == scope,
            None => false,
        };
        let falls_back = context.window_scope.is_none() && context.is_trusted_orchestrator()
            && self.is_source_closed(context) && !own_source;
        if !falls_back {
            if let Some(expected) = context.source_authority {
                let same = match self.windows.get(&scope.0) {
                    Some(window) => window.authority.stamp == expected,
                    None => false,
                };
                if !same {
                    return Route::Drop(Rejection::SourceAuthorityReplaced);
                }
            }
        }
        if let PluginCommand::SyncSnapshot { .. } = command {
            return Route::Sync(scope);
        }
        if !self.command_allowed(scope, command, context) {
            return Route::Drop(Rejection::OutsideSourceWindow);
        }
        let closes_scope = match command {
            PluginCommand::CloseWindow { id } => *id == scope,
            _ => false,
        };
        Route::Scoped { scope, select: command.target().is_none() && !closes_scope }
    }

    /// What becomes of a command.
    pub fn find_route(&self, command: &PluginCommand, context: &PluginCommandContext) -> (route: Route)
        ensures
            route == self@.route_of(*command, *context),
    {
        if let PluginCommand::CompleteCommand { .. } = command {
            return if context.is_agent_script() {
                Route::Complete
            } else {
                Route::Ignore
            };
        }
        let active = self.is_plugin_instance_active(context.plugin_instance_id);
        if !plugin_context_may_dispatch(context, active) {
            return Route::Drop(Rejection::InstanceReplaced);
        }
        let source_closed = self.is_source_closed(context);
        let outlives_window = match command {
            PluginCommand::SetGlobalState(_) => true,
            PluginCommand::HookCompleted { .. } => true,
            _ => false,
        };
        if source_closed && outlives_window {
            return Route::Direct;
        }
        let requested = match context.window_scope {
            Some(scope) => scope,
            None => match context.source_window {
                Some(source) => source,
                None => {
                    return Route::Direct;
                },
            },
        };
        let trusted = context.window_scope.is_none() && context.is_trusted_orchestrator();
        if self.has_window(requested) {
            self.find_route_within(requested, command, context)
        } else if trusted && source_closed && self.has_window(self.active_window) {
            self.find_route_within(self.active_window, command, context)
        } else {
            match command {
                PluginCommand::SyncSnapshot { .. } => Route::Reset,
                _ => Route::Drop(Rejection::SourceWindowClosed),
            }
        }
    }

    /// Hands the completion of an agent's script on.
    fn complete_script(&mut self, command: PluginCommand, context: PluginCommandContext)
        ensures
            final(self)@ == old(self)@.completing(command, context),
    {
        if let PluginCommand::CompleteCommand { request_id, ok, output, error } = command {
            let authority = match context.source_window {
                Some(window) => self.plugin_authority_stamp(window),
                None => None,
            };
            self.emit(
                Effect::CompleteAgentScript {
                    context,
                    request_id,
                    authority,
                    ok,
                    output,
                    error,
                },
            );
        }
    }

    /// Brings a sender's snapshot up to date.
    fn refresh_snapshot(
        &mut self,
        snapshot: Option<SnapshotId>,
        window: WindowId,
        scope: Option<WindowId>,
    )
        ensures
            final(self)@ == old(self)@.refreshing(snapshot, window, scope),
    {
        if let Some(snapshot) = snapshot {
            self.emit(
                Effect::RefreshSnapshot {
                    target: SnapshotTarget::Private(snapshot),
                    window,
                    scope,
                },
            );
        }
    }

    /// Answers a request to bring a snapshot up to date.
    fn sync_snapshot(&mut self, command: &PluginCommand, context: &PluginCommandContext, scope: WindowId)
        requires
            *command is SyncSnapshot,
        ensures
            command matches PluginCommand::SyncSnapshot { request_id } && final(self)@ == old(
                self,
            )@.syncing(scope, *request_id, *context),
    {
        if let PluginCommand::SyncSnapshot { request_id } = command {
            let previous = self.active_window;
            self.switch_active_window_pointer(scope);
            self.refresh_snapshot(context.state_snapshot, scope, context.window_scope);
            self.emit(
                Effect::Respond(PluginResponse::SnapshotSynced { request_id: *request_id }),
            );
            self.switch_active_window_pointer(previous);
        }
    }

    /// Answers a request to bring the snapshot of a window up to date that is
    /// gone.
    fn reset_snapshot(&mut self, command: &PluginCommand, context: &PluginCommandContext)
        requires
            *command is SyncSnapshot,
        ensures
            command matches PluginCommand::SyncSnapshot { request_id } && final(self)@ == old(
                self,
            )@.resetting(*request_id, *context),
    {
        if let PluginCommand::SyncSnapshot { request_id } = command {
            if let Some(snapshot) = context.state_snapshot {
                self.emit(Effect::ResetSnapshot { snapshot });
            }
            self.emit(
                Effect::Respond(PluginResponse::SnapshotSynced { request_id: *request_id }),
            );
        }
    }

    /// Dispatches a command that a plugin has sent. Where it is carried out for
    /// a window there is something left to do once the host has done what it
    /// was asked for: [`Editor::finish_plugin_dispatch`] does it.
    pub fn dispatch_plugin_command_envelope(
        &mut self,
        envelope: PluginCommandEnvelope,
        site: DispatchSite,
    ) -> (frame: Option<DispatchFrame>)
        requires
            old(self)@.needs_active(envelope.command, envelope.context) ==> old(self)@.has_active(),
            envelope.command matches PluginCommand::SetLspRootUri { uri, .. } ==> byte_length(uri@)
                <= MAX_URI_BYTES,
        ensures
            old(self)@.is_dispatched(envelope.command, envelope.context, site, frame, final(self)@),
    {
        let command = envelope.command;
        let context = envelope.context;
        match self.find_route(&command, &context) {
            Route::Complete => {
                self.complete_script(command, context);
                None
            },
            Route::Ignore => None,
            Route::Drop(reason) => {
                self.reject_dropped_async_command(&command, &context, reason);
                None
            },
            Route::Direct => {
                self.handle_plugin_command_with_context(command, &context, site);
                None
            },
            Route::Reset => {
                self.reset_snapshot(&command, &context);
                None
            },
            Route::Sync(scope) => {
                self.sync_snapshot(&command, &context, scope);
                None
            },
            Route::Scoped { scope, select } => {
                let frame = DispatchFrame {
                    scope,
                    previous: self.active_window,
                    target: command.target(),
                    opens_active: match &command {
                        PluginCommand::CreateWindowWithTerminal { activate, .. } => *activate,
                        _ => false,
                    },
                    snapshot: context.state_snapshot,
                    window_scope: context.window_scope,
                };
                if select {
                    self.switch_active_window_pointer(scope);
                }
                self.handle_plugin_command_with_context(command, &context, site);
                Some(frame)
            },
        }
    }

    /// Ends the dispatch of a command that was carried out for a window: its
    /// sender sees what has changed, and the window that was in the foreground
    /// is there again, unless the command was to show another.
    pub fn finish_plugin_dispatch(&mut self, frame: DispatchFrame)
        ensures
            final(self)@ == old(self)@.dispatched(frame),
    {
        let resulting = self.active_window;
        if self.has_window(frame.scope) {
            self.switch_active_window_pointer(frame.scope);
            self.refresh_snapshot(frame.snapshot, frame.scope, frame.window_scope);
            self.switch_active_window_pointer(resulting);
        }
        let asked_for = match frame.target {
            Some(target) => target == resulting,
            None => false,
        };
        let shown = asked_for || (frame.opens_active && resulting != frame.scope);
        if !shown && self.has_window(frame.previous) {
            self.switch_active_window_pointer(frame.previous);
        }
        if self.has_window(self.active_window) {
            let window = self.active_window;
            self.emit(
                Effect::RefreshSnapshot { target: SnapshotTarget::Shared, window, scope: None },
            );
        }
    }

    /// Carries a command of the host itself out.
    pub fn handle_plugin_command(&mut self, command: PluginCommand, site: DispatchSite)
        requires
            old(self)@.has_active(),
            command matches PluginCommand::SetLspRootUri { uri, .. } ==> byte_length(uri@)
                <= MAX_URI_BYTES,
        ensures
            exists|context: PluginCommandContext|
                {
                    &&& is_host_context(context, old(self)@.active_window)
                    &&& #[trigger] old(self)@.is_carried_out(command, context, site, final(self)@)
                },
    {
        let mut context = PluginCommandContext::default();
        context.source_window = Some(self.active_window);
        self.handle_plugin_command_with_context(command, &context, site);
        proof {
            assert(is_host_context(context, old(self)@.active_window));
        }
    }
}

/// Whether a context is that of the host itself, for the window `window`.
pub open spec fn is_host_context(context: PluginCommandContext, window: WindowId) -> bool {
    &&& context.plugin_name@.len() == 0
    &&& context.plugin_instance_id == PluginInstanceId(0)
    &&& context.provenance == PluginLoadProvenance::Internal
    &&& context.trusted_builtin is None
    &&& context.purpose == PluginCommandPurpose::Ordinary
    &&& context.source_window == Some(window)
    &&& context.window_scope is None
    &&& context.source_authority is None
    &&& context.state_snapshot is None
}

impl EditorModel {
    /// Whether `after` is this editor once a command was dispatched, with
    /// `frame` left to do.
    pub open spec fn is_dispatched(
        self,
        command: PluginCommand,
        context: PluginCommandContext,
        site: DispatchSite,
        frame: Option<DispatchFrame>,
        after: EditorModel,
    ) -> bool {
        match self.route_of(command, context) {
            Route::Complete => frame is None && after == self.completing(command, context),
            Route::Ignore => frame is None && after == self,
            Route::Drop(reason) => frame is None && after == self.dropping(
                command,
                context,
                reason,
            ),
            Route::Direct => frame is None && self.is_carried_out(command, context, site, after),
            Route::Reset => {
                &&& frame is None
                &&& command matches PluginCommand::SyncSnapshot { request_id } && after
                    == self.resetting(request_id, context)
            },
            Route::Sync(scope) => {
                &&& frame is None
                &&& command matches PluginCommand::SyncSnapshot { request_id } && after
                    == self.syncing(scope, request_id, context)
            },
            Route::Scoped { scope, select } => {
                &&& frame == Some(
                    DispatchFrame {
                        scope,
                        previous: self.active_window,
                        target: target_of(command),
                        opens_active: opens_window(command),
                        snapshot: context.state_snapshot,
                        window_scope: context.window_scope,
                    },
                )
                &&& self.selecting(scope, select).is_carried_out(command, context, site, after)
            },
        }
    }
}

} // verus!
