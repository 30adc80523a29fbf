//! Terminals for plugins, in a window that is there or in one of their own.
use std::sync::Arc;
use vstd::prelude::*;

use crate::command::PluginCommandContext;
use crate::command::PluginLoadProvenance;
use crate::command::TerminalRequest;
use crate::editor::callback_owner;
use crate::editor::owner_of_callbacks;
use crate::editor::Editor;
use crate::editor::EditorModel;
use crate::effects::Effect;
use crate::effects::HookEvent;
use crate::effects::PluginResponse;
use crate::effects::SnapshotTarget;
use crate::effects::TerminalPlacement;
use crate::effects::TerminalTicket;
use crate::ids::BufferId;
use crate::ids::JsCallbackId;
use crate::ids::LeafId;
use crate::ids::TerminalId;
use crate::ids::WindowId;
use crate::ids::WindowTerminalId;
use crate::mouse::SplitDirection;
use crate::notice::Rejection;
use crate::permissions::context_may_use_privileged_terminal_options;
use crate::permissions::may_use_privileged_terminals;
use crate::process_group::registered;
use crate::terminals::TerminalsModel;
use crate::text::decimal;
use crate::text::decimal_text;
use crate::text::same_text;
use crate::window::Window;

verus! {

/// The label under which the process group of a terminal is registered.
pub open spec fn group_label(terminal: TerminalId) -> Seq<char> {
    "terminal #"@ + decimal_text(terminal.0 as nat)
}

/// The label under which the process group of a terminal is registered.
pub fn terminal_group_label(terminal: TerminalId) -> (label: String)
    ensures
        label@ == group_label(terminal),
{
    let mut label = "terminal #".to_string();
    let digits = decimal(terminal.0);
    label.append(digits.as_str());
    label
}

/// Whether a terminal is asked for with options that only the host and the
/// Orchestrator may use.
pub open spec fn is_privileged(terminal: TerminalRequest) -> bool {
    terminal.allow_script || terminal.companion is Some || terminal.selected_agent
}

/// The direction that a name stands for; vertical where it is not horizontal.
pub open spec fn terminal_direction(direction: Option<String>) -> Option<SplitDirection> {
    match direction {
        Some(name) => Some(
            if name@ == "horizontal"@ {
                SplitDirection::Horizontal
            } else {
                SplitDirection::Vertical
            },
        ),
        None => None,
    }
}

/// The command line that a restore runs: the clean one where it is given.
pub open spec fn restore_command(terminal: TerminalRequest) -> Option<Arc<Vec<String>>> {
    match terminal.relaunch {
        Some(command) => Some(command),
        None => terminal.command,
    }
}

/// A terminal that was started.
#[derive(Clone, Copy, Debug, PartialEq, Eq, Structural)]
pub struct StartedTerminal {
    pub terminal: TerminalId,
    pub buffer: BufferId,
    pub split: Option<LeafId>,
    pub pid: Option<u32>,
    /// Whether its child may drive the editor.
    pub script_access: bool,
}

/// The title of a terminal; an empty one is none.
pub open spec fn shown_title(title: Option<String>) -> Option<String> {
    match title {
        Some(title) => if title@.len() > 0 {
            Some(title)
        } else {
            None
        },
        None => None,
    }
}

/// The title of a terminal; an empty one is none.
pub(crate) fn filter_title(title: Option<String>) -> (shown: Option<String>)
    ensures
        shown == shown_title(title),
{
    match title {
        Some(title) => if title.as_str().is_empty() {
            None
        } else {
            Some(title)
        },
        None => None,
    }
}

/// The tables after a terminal was started, but for its process group.
pub open spec fn terminal_filed(
    tables: TerminalsModel,
    started: StartedTerminal,
    restore: Option<Seq<String>>,
    resume: Option<Arc<Vec<String>>>,
    selected_agent: bool,
) -> TerminalsModel {
    let k = started.terminal.0;
    TerminalsModel {
        commands: match restore {
            Some(command) => tables.commands.insert(k, command),
            None => tables.commands,
        },
        resume_commands: match resume {
            Some(command) => tables.resume_commands.insert(k, command),
            None => tables.resume_commands,
        },
        script_tokens: if started.script_access {
            tables.script_tokens.insert(k)
        } else {
            tables.script_tokens
        },
        tracked_agent: if selected_agent {
            Some(started.terminal)
        } else {
            tables.tracked_agent
        },
        ..tables
    }
}

/// Whether `after` is `before` with the process group of a terminal tracked.
pub open spec fn pid_tracked(
    before: TerminalsModel,
    pid: Option<u32>,
    terminal: TerminalId,
    after: TerminalsModel,
) -> bool {
    match pid {
        Some(pid) => {
            &&& registered(
                before.groups,
                before.next_incarnation,
                pid,
                group_label(terminal),
                after.groups,
                after.next_incarnation,
            )
            &&& after == TerminalsModel {
                groups: after.groups,
                next_incarnation: after.next_incarnation,
                ..before
            }
        },
        None => after == before,
    }
}

/// Whether `after` is `before` with the process group of a started terminal
/// tracked.
pub open spec fn group_tracked(
    before: TerminalsModel,
    started: StartedTerminal,
    after: TerminalsModel,
) -> bool {
    pid_tracked(before, started.pid, started.terminal, after)
}

impl Window {
    /// Files a terminal that was started, so that it can be restored, driven
    /// and stopped.
    pub fn file_terminal(
        &mut self,
        started: StartedTerminal,
        restore: Option<Arc<Vec<String>>>,
        resume: Option<Arc<Vec<String>>>,
        selected_agent: bool,
    )
        ensures
            ({
                let filed = terminal_filed(
                    old(self)@.terminals,
                    started,
                    match restore {
                        Some(command) => Some(command@),
                        None => None,
                    },
                    resume,
                    selected_agent,
                );
                &&& group_tracked(filed, started, final(self)@.terminals)
                &&& final(self)@ == old(self)@.with_terminals(final(self)@.terminals)
            }),
    {
        let ghost before = self@.terminals;
        let k = started.terminal.0;
        if let Some(command) = restore {
            self.terminals.commands.insert(k, command);
            proof {
                assert(self@.terminals.commands =~= before.commands.insert(k, command@));
            }
        }
        if let Some(command) = resume {
            self.terminals.resume_commands.insert(k, command);
        }
        if started.script_access {
            self.terminals.script_tokens.insert(k);
        }
        if selected_agent {
            self.terminals.tracked_agent = Some(started.terminal);
        }
        if let Some(pid) = started.pid {
            let label = terminal_group_label(started.terminal);
            self.terminals.process_groups.register(pid, label.as_str());
        }
    }
}

impl EditorModel {
    /// This editor after a plugin asked for a terminal in the window `target`:
    /// the request is refused, or the host starts the terminal.
    pub open spec fn terminal_requested(
        self,
        terminal: TerminalRequest,
        direction: Option<String>,
        ratio_bits: Option<u32>,
        focus: Option<bool>,
        persistent: bool,
        target: WindowId,
        request_id: u64,
        context: PluginCommandContext,
    ) -> EditorModel {
        let callback = JsCallbackId(request_id);
        if is_privileged(terminal) && !may_use_privileged_terminals(
            context,
            self.instance_active(context.plugin_instance_id),
        ) {
            self.rejecting(context, callback, Rejection::CreateTerminalPrivileged)
        } else if !context.is_internal() && context.source_window is Some
            && context.source_window->0 != target {
            self.rejecting(context, callback, Rejection::CreateTerminalMismatch)
        } else if !self.has(target) {
            self.rejecting(
                context,
                callback,
                Rejection::CreateTerminalWindowGone { window: target },
            )
        } else {
            self.emitting(
                Effect::StartTerminal {
                    ticket: TerminalTicket {
                        owner: callback_owner(context),
                        request_id,
                        window: target,
                        previous_active_buffer: if target == self.active_window {
                            Some(self.window(target).documents.active_buffer)
                        } else {
                            None
                        },
                        restore_command: restore_command(terminal),
                        resume: terminal.resume,
                        selected_agent: terminal.selected_agent,
                    },
                    placement: TerminalPlacement {
                        direction: terminal_direction(direction),
                        ratio_bits,
                        focus: match focus {
                            Some(focus) => focus,
                            None => true,
                        },
                        persistent,
                    },
                    terminal: TerminalRequest { title: shown_title(terminal.title), ..terminal },
                },
            )
        }
    }

    /// This editor with the promise of a terminal rejected.
    pub open spec fn ticket_rejected(self, ticket: TerminalTicket, reason: Rejection) -> EditorModel {
        self.emitting(
            Effect::Reject {
                owner: ticket.owner,
                callback: JsCallbackId(ticket.request_id),
                reason,
            },
        )
    }

    /// This editor once a terminal was started and saved: a change of what is
    /// shown is announced, and the plugin gets its answer.
    pub open spec fn terminal_published(self, ticket: TerminalTicket, started: StartedTerminal) -> EditorModel {
        let shown = self.window(ticket.window).documents.active_buffer;
        let announced = if ticket.previous_active_buffer is Some && ticket.previous_active_buffer
            != Some(shown) {
            self.emitting(
                Effect::RefreshSnapshot {
                    target: SnapshotTarget::Shared,
                    window: self.active_window,
                    scope: None,
                },
            ).emitting(
                Effect::RunHook {
                    window: self.active_window,
                    event: HookEvent::BufferActivated { buffer: shown },
                },
            )
        } else {
            self
        };
        announced.emitting(
            Effect::Respond(
                PluginResponse::TerminalCreated {
                    request_id: ticket.request_id,
                    buffer: started.buffer,
                    terminal: WindowTerminalId {
                        window: ticket.window,
                        terminal: started.terminal,
                    },
                    split: started.split,
                },
            ),
        )
    }
}

impl Editor {
    /// Asks for a terminal in the window `target`.
    pub fn handle_create_terminal(
        &mut self,
        terminal: TerminalRequest,
        direction: Option<String>,
        ratio_bits: Option<u32>,
        focus: Option<bool>,
        persistent: bool,
        target: WindowId,
        request_id: u64,
        context: &PluginCommandContext,
    )
        ensures
            final(self)@ == old(self)@.terminal_requested(
                terminal,
                direction,
                ratio_bits,
                focus,
                persistent,
                target,
                request_id,
                *context,
            ),
    {
        let callback = JsCallbackId(request_id);
        let active = self.is_plugin_instance_active(context.plugin_instance_id);
        if (terminal.allow_script || terminal.companion.is_some() || terminal.selected_agent)
            && !context_may_use_privileged_terminal_options(context, active) {
            self.reject_callback_for_context(context, callback, Rejection::CreateTerminalPrivileged);
            return ;
        }
        if context.provenance != PluginLoadProvenance::Internal {
            if let Some(source) = context.source_window {
                if source != target {
                    self.reject_callback_for_context(
                        context,
                        callback,
                        Rejection::CreateTerminalMismatch,
                    );
                    return ;
                }
            }
        }
        let shown = match self.windows.get(&target.0) {
            Some(window) => window.documents.active_buffer,
            None => {
                self.reject_callback_for_context(
                    context,
                    callback,
                    Rejection::CreateTerminalWindowGone { window: target },
                );
                return ;
            },
        };
        let restore_command = match &terminal.relaunch {
            Some(command) => Some(command.clone()),
            None => match &terminal.command {
                Some(command) => Some(command.clone()),
                None => None,
            },
        };
        let resume = match &terminal.resume {
            Some(command) => Some(command.clone()),
            None => None,
        };
        let ticket = TerminalTicket {
            owner: owner_of_callbacks(context),
            request_id,
            window: target,
            previous_active_buffer: if target == self.active_window {
                Some(shown)
            } else {
                None
            },
            restore_command,
            resume,
            selected_agent: terminal.selected_agent,
        };
        let placement = TerminalPlacement {
            direction: match direction {
                Some(name) => if same_text(name.as_str(), "horizontal") {
                    Some(SplitDirection::Horizontal)
                } else {
                    Some(SplitDirection::Vertical)
                },
                None => None,
            },
            ratio_bits,
            focus: match focus {
                Some(focus) => focus,
                None => true,
            },
            persistent,
        };
        let mut terminal = terminal;
        terminal.title = filter_title(terminal.title);
        self.emit(Effect::StartTerminal { ticket, placement, terminal });
    }

    /// Goes on once the environment of a terminal could not be assembled.
    pub fn terminal_environment_failed(&mut self, ticket: TerminalTicket, error: String)
        ensures
            final(self)@ == old(self)@.ticket_rejected(
                ticket,
                Rejection::CreateTerminalEnvFailed { error },
            ),
    {
        self.emit(
            Effect::Reject {
                owner: ticket.owner,
                callback: JsCallbackId(ticket.request_id),
                reason: Rejection::CreateTerminalEnvFailed { error },
            },
        );
    }

    /// Goes on once a terminal could not be started.
    pub fn terminal_start_failed(&mut self, ticket: TerminalTicket, error: String)
        ensures
            final(self)@ == old(self)@.ticket_rejected(
                ticket,
                Rejection::CreateTerminalFailed { error },
            ),
    {
        self.emit(
            Effect::Reject {
                owner: ticket.owner,
                callback: JsCallbackId(ticket.request_id),
                reason: Rejection::CreateTerminalFailed { error },
            },
        );
    }

    /// Files a terminal that was started for `ticket`. The window is to be
    /// saved next.
    pub fn terminal_started(&mut self, ticket: &TerminalTicket, started: StartedTerminal)
        ensures
            if old(self)@.has(ticket.window) {
                let window = old(self)@.window(ticket.window);
                let tables = final(self)@.window(ticket.window).terminals;
                &&& group_tracked(
                    terminal_filed(
                        window.terminals,
                        started,
                        match ticket.restore_command {
                            Some(command) => Some(command@),
                            None => None,
                        },
                        ticket.resume,
                        ticket.selected_agent,
                    ),
                    started,
                    tables,
                )
                &&& final(self)@ == old(self)@.with_window(
                    ticket.window,
                    window.with_terminals(tables),
                )
            } else {
                final(self)@ == old(self)@
            },
    {
        let ghost before = self@;
        if let Some(mut window) = self.take_window(ticket.window) {
            window.file_terminal(
                started,
                match &ticket.restore_command {
                    Some(command) => Some(command.clone()),
                    None => None,
                },
                match &ticket.resume {
                    Some(command) => Some(command.clone()),
                    None => None,
                },
                ticket.selected_agent,
            );
            let ghost made = window@;
            self.put_window(ticket.window, window);
            proof {
                assert(before.without_window(ticket.window).with_window(ticket.window, made).windows
                    =~= before.with_window(ticket.window, made).windows);
            }
        }
    }

    /// Goes on once the window of a started terminal was saved, or could not
    /// be: a terminal that is not on record is closed again.
    pub fn terminal_saved(
        &mut self,
        ticket: TerminalTicket,
        started: StartedTerminal,
        saved: Result<(), String>,
    )
        requires
            old(self)@.has(ticket.window),
        ensures
            final(self)@ == match saved {
                Ok(_) => old(self)@.terminal_published(ticket, started),
                Err(error) => {
                    let terminal = WindowTerminalId {
                        window: ticket.window,
                        terminal: started.terminal,
                    };
                    old(self)@.emitting(
                        Effect::RevokeScriptToken {
                            window: ticket.window,
                            terminal: started.terminal,
                        },
                    ).terminal_closed(terminal).ticket_rejected(
                        ticket,
                        Rejection::CreateTerminalUnpublished { error },
                    )
                },
            },
    {
        match saved {
            Err(error) => {
                self.emit(
                    Effect::RevokeScriptToken {
                        window: ticket.window,
                        terminal: started.terminal,
                    },
                );
                self.handle_close_terminal(
                    WindowTerminalId { window: ticket.window, terminal: started.terminal },
                );
                self.emit(
                    Effect::Reject {
                        owner: ticket.owner,
                        callback: JsCallbackId(ticket.request_id),
                        reason: Rejection::CreateTerminalUnpublished { error },
                    },
                );
            },
            Ok(_) => {
                let shown = match self.windows.get(&ticket.window.0) {
                    Some(window) => window.documents.active_buffer,
                    None => started.buffer,
                };
                let changed = match ticket.previous_active_buffer {
                    Some(previous) => previous != shown,
                    None => false,
                };
                if changed {
                    self.emit(
                        Effect::RefreshSnapshot {
                            target: SnapshotTarget::Shared,
                            window: self.active_window,
                            scope: None,
                        },
                    );
                    self.emit(
                        Effect::RunHook {
                            window: self.active_window,
                            event: HookEvent::BufferActivated { buffer: shown },
                        },
                    );
                }
                self.emit(
                    Effect::Respond(
                        PluginResponse::TerminalCreated {
                            request_id: ticket.request_id,
                            buffer: started.buffer,
                            terminal: WindowTerminalId {
                                window: ticket.window,
                                terminal: started.terminal,
                            },
                            split: started.split,
                        },
                    ),
                );
            },
        }
    }
}

} // verus!
