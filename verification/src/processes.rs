//! Processes, delays and downloads that plugins start, and the terminals that
//! they write to.
use vstd::prelude::*;

use crate::command::Payload;
use crate::command::PluginCommandContext;
use crate::editor::callback_owner;
use crate::editor::owner_of_callbacks;
use crate::editor::Editor;
use crate::editor::EditorModel;
use crate::editor::OwnersModel;
use crate::effects::CallbackOwner;
use crate::effects::Effect;
use crate::effects::EffectModel;
use crate::effects::ProcessOutcome;
use crate::effects::ProcessRequest;
use crate::effects::Reply;
use crate::ids::JsCallbackId;
use crate::ids::WindowId;
use crate::ids::WindowTerminalId;
use crate::notice::Rejection;
use crate::notice::SpawnOperation;
use crate::permissions::context_may_use_privileged_terminal_options;
use crate::permissions::may_use_privileged_terminals;
use crate::terminals::Companion;
use crate::text::decimal;
use crate::text::decimal_text;

verus! {

impl EditorModel {
    /// This editor with a promise of the host rejected.
    pub open spec fn refusing(self, callback: JsCallbackId, reason: Rejection) -> EditorModel {
        self.emitting(Effect::Reject { owner: CallbackOwner::Host, callback, reason })
    }

    /// Whether asynchronous work can be done.
    pub open spec fn has_runtime(self) -> bool {
        self.config.runtime && self.config.bridge
    }

    /// The process that is asked for, which runs at the root of its window
    /// where nothing else is given.
    pub open spec fn placed(self, request: ProcessRequest) -> ProcessRequest {
        ProcessRequest {
            cwd: match request.cwd {
                Some(cwd) => Some(cwd),
                None => Some(self.window(request.window).root.path),
            },
            ..request
        }
    }

    /// This editor with a process under way that its window may kill.
    pub open spec fn running(
        self,
        request: ProcessRequest,
        operation: SpawnOperation,
    ) -> EditorModel {
        (EditorModel {
            processes: match operation {
                SpawnOperation::BackgroundProcess => OwnersModel {
                    background: self.processes.background.insert(
                        request.process_id,
                        request.window,
                    ),
                    ..self.processes
                },
                _ => OwnersModel {
                    host: self.processes.host.insert(request.process_id, request.window),
                    ..self.processes
                },
            },
            ..self
        }).emitting(Effect::Spawn { request, operation })
    }

    /// This editor once a process was asked for.
    pub open spec fn spawning(
        self,
        request: ProcessRequest,
        operation: SpawnOperation,
    ) -> EditorModel {
        if !self.has(request.window) {
            self.refusing(
                request.callback,
                Rejection::SpawnWindowGone { operation, window: request.window },
            )
        } else if !self.has_runtime() {
            self.refusing(request.callback, Rejection::AsyncRuntimeMissing)
        } else if operation is HostProcess {
            self.emitting(Effect::CheckTrust { request: self.placed(request) })
        } else {
            self.running(self.placed(request), operation)
        }
    }
}

/// The outcome of a download by the status that the server gave, or by what
/// went wrong.
pub open spec fn fetched(result: Result<u16, String>) -> (Seq<char>, int) {
    match result {
        Ok(status) => if 200 <= status < 300 {
            (Seq::empty(), 0)
        } else {
            ("HTTP "@ + decimal_text(status as nat), status as int)
        },
        Err(error) => (error@, -1),
    }
}

/// The outcome of a download.
pub fn fetch_outcome(result: Result<u16, String>) -> (outcome: ProcessOutcome)
    ensures
        outcome.stdout@ == Seq::<char>::empty(),
        outcome.stderr@ == fetched(result).0,
        outcome.exit_code == fetched(result).1,
{
    match result {
        Ok(status) => if 200 <= status && status < 300 {
            ProcessOutcome { stdout: String::new(), stderr: String::new(), exit_code: 0 }
        } else {
            let mut stderr = "HTTP ".to_string();
            stderr.append(decimal(status as u64).as_str());
            ProcessOutcome { stdout: String::new(), stderr, exit_code: status as i32 }
        },
        Err(error) => ProcessOutcome { stdout: String::new(), stderr: error, exit_code: -1 },
    }
}

/// The exit code that is reported: that of the process, or -1 where it has
/// none, because a signal ended it or it could not be waited for.
pub fn reported_exit_code(code: Option<i32>) -> (reported: i32)
    ensures
        reported == match code {
            Some(code) => code,
            None => -1i32,
        },
{
    match code {
        Some(code) => code,
        None => -1,
    }
}

impl Editor {
    /// Rejects a promise of the host.
    fn refuse(&mut self, callback: JsCallbackId, reason: Rejection)
        ensures
            final(self)@ == old(self)@.refusing(callback, reason),
    {
        self.emit(Effect::Reject { owner: CallbackOwner::Host, callback, reason });
    }

    /// Starts a process for a plugin.
    fn spawn(&mut self, request: ProcessRequest, operation: SpawnOperation)
        ensures
            final(self)@ == old(self)@.spawning(request, operation),
    {
        let root_path = match self.windows.get(&request.window.0) {
            Some(window) => window.root.path.clone(),
            None => {
                self.refuse(
                    request.callback,
                    Rejection::SpawnWindowGone { operation, window: request.window },
                );
                return ;
            },
        };
        if !(self.config.runtime && self.config.bridge) {
            self.refuse(request.callback, Rejection::AsyncRuntimeMissing);
            return ;
        }
        let mut request = request;
        if request.cwd.is_none() {
            request.cwd = Some(root_path);
        }
        match operation {
            SpawnOperation::HostProcess => {
                self.emit(Effect::CheckTrust { request });
            },
            SpawnOperation::BackgroundProcess => {
                self.processes.background.insert(request.process_id, request.window);
                self.emit(Effect::Spawn { request, operation });
            },
            SpawnOperation::Process => {
                self.processes.host.insert(request.process_id, request.window);
                self.emit(Effect::Spawn { request, operation });
            },
        }
    }

    /// Starts a process through the backend of a window.
    pub fn handle_spawn_process(
        &mut self,
        window: WindowId,
        command: String,
        args: Vec<String>,
        cwd: Option<String>,
        stdout_to: Option<String>,
        callback: JsCallbackId,
    )
        ensures
            final(self)@ == old(self)@.spawning(
                ProcessRequest {
                    window,
                    process_id: callback.0,
                    command,
                    args,
                    cwd,
                    stdout_to,
                    callback,
                },
                SpawnOperation::Process,
            ),
    {
        self.spawn(
            ProcessRequest {
                window,
                process_id: callback.0,
                command,
                args,
                cwd,
                stdout_to,
                callback,
            },
            SpawnOperation::Process,
        );
    }

    /// Starts a process on the host, whatever backend the window has, if the
    /// trust in the project allows it.
    pub fn handle_spawn_host_process(
        &mut self,
        window: WindowId,
        command: String,
        args: Vec<String>,
        cwd: Option<String>,
        callback: JsCallbackId,
    )
        ensures
            final(self)@ == old(self)@.spawning(
                ProcessRequest {
                    window,
                    process_id: callback.0,
                    command,
                    args,
                    cwd,
                    stdout_to: None,
                    callback,
                },
                SpawnOperation::HostProcess,
            ),
    {
        self.spawn(
            ProcessRequest {
                window,
                process_id: callback.0,
                command,
                args,
                cwd,
                stdout_to: None,
                callback,
            },
            SpawnOperation::HostProcess,
        );
    }

    /// Starts a process on the host once it is known whether the trust in the
    /// project allows it. A process that was denied ends at once with the
    /// reason as its error output.
    pub fn host_process_checked(&mut self, request: ProcessRequest, denied: Option<String>)
        ensures
            final(self)@ == match denied {
                Some(reason) => old(self)@.asking(
                    EffectModel::ProcessOutput {
                        process_id: request.process_id,
                        stdout: Seq::empty(),
                        stderr: reason@,
                        exit_code: -1i32,
                    },
                ),
                None => old(self)@.running(request, SpawnOperation::HostProcess),
            },
    {
        match denied {
            Some(reason) => {
                self.emit(
                    Effect::ProcessOutput {
                        process_id: request.process_id,
                        outcome: ProcessOutcome {
                            stdout: String::new(),
                            stderr: reason,
                            exit_code: -1,
                        },
                    },
                );
            },
            None => {
                self.processes.host.insert(request.process_id, request.window);
                self.emit(Effect::Spawn { request, operation: SpawnOperation::HostProcess });
            },
        }
    }

    /// Starts a process whose output is streamed to the plugin.
    pub fn handle_spawn_background_process(
        &mut self,
        window: WindowId,
        process_id: u64,
        command: String,
        args: Vec<String>,
        cwd: Option<String>,
        callback: JsCallbackId,
    )
        ensures
            final(self)@ == old(self)@.spawning(
                ProcessRequest {
                    window,
                    process_id,
                    command,
                    args,
                    cwd,
                    stdout_to: None,
                    callback,
                },
                SpawnOperation::BackgroundProcess,
            ),
    {
        self.spawn(
            ProcessRequest { window, process_id, command, args, cwd, stdout_to: None, callback },
            SpawnOperation::BackgroundProcess,
        );
    }

    /// Kills a process, if it is one of the window that asks.
    pub fn handle_kill_host_process(&mut self, window: WindowId, process_id: u64)
        ensures
            final(self)@ == old(self)@.killing_host(window, process_id),
    {
        let owned = match self.processes.host.get(&process_id) {
            Some(owner) => *owner == window,
            None => false,
        };
        if owned {
            self.processes.host.remove(&process_id);
            self.emit(Effect::KillProcess { process_id });
        }
    }

    /// Kills a process in the background, if it is one of the window that
    /// asks.
    pub fn handle_kill_background_process(&mut self, window: WindowId, process_id: u64)
        ensures
            final(self)@ == old(self)@.killing_background(window, process_id),
    {
        let owned = match self.processes.background.get(&process_id) {
            Some(owner) => *owner == window,
            None => false,
        };
        if owned {
            self.processes.background.remove(&process_id);
            self.emit(Effect::AbortBackground { process_id });
        }
    }

    /// Rejects the wait for a process, which no backend offers.
    pub fn handle_spawn_process_wait(
        &mut self,
        window: WindowId,
        process_id: u64,
        callback: JsCallbackId,
    )
        ensures
            final(self)@ == old(self)@.refusing(
                callback,
                Rejection::SpawnWaitUnsupported { window, process: process_id },
            ),
    {
        self.refuse(callback, Rejection::SpawnWaitUnsupported { window, process: process_id });
    }

    /// Resolves a promise after a time. Without a runtime everything waits.
    pub fn handle_delay(&mut self, callback: JsCallbackId, duration_ms: u64)
        ensures
            final(self)@ == old(self)@.delaying(callback, duration_ms),
    {
        if self.config.runtime && self.config.bridge {
            self.emit(Effect::Delay { callback, duration_ms });
        } else {
            self.emit(Effect::Sleep { duration_ms });
            self.emit(
                Effect::Resolve { owner: CallbackOwner::Host, callback, reply: Reply::Null },
            );
        }
    }

    /// Downloads a file.
    pub fn handle_http_fetch(&mut self, url: String, target_path: String, callback: JsCallbackId)
        ensures
            final(self)@ == old(self)@.fetching(url, target_path, callback),
    {
        if self.config.runtime && self.config.bridge {
            self.emit(Effect::HttpFetch { url, target_path, callback });
        } else {
            self.refuse(callback, Rejection::AsyncRuntimeMissing);
        }
    }

    /// Writes to a terminal, where it runs.
    pub fn handle_send_terminal_input(&mut self, terminal: WindowTerminalId, data: String)
        ensures
            final(self)@ == old(self)@.typing(terminal, data),
    {
        let there = match self.windows.get(&terminal.window.0) {
            Some(window) => window.terminals.live.contains_key(&terminal.terminal.0),
            None => false,
        };
        if there {
            self.emit(Effect::WriteTerminal { terminal, data });
        }
    }

    /// Resolves a promise of the sender of a command with a flag.
    pub(crate) fn resolve_bool_for_context(
        &mut self,
        context: &PluginCommandContext,
        request_id: u64,
        value: bool,
    )
        ensures
            final(self)@ == old(self)@.flagging(*context, request_id, value),
    {
        self.emit(
            Effect::Resolve {
                owner: owner_of_callbacks(context),
                callback: JsCallbackId(request_id),
                reply: Reply::Flag(value),
            },
        );
    }

    /// Sends a command to the companion of a terminal, where the sender may
    /// and the companion is there.
    pub fn handle_send_omp_companion_command(
        &mut self,
        terminal: WindowTerminalId,
        arguments: Payload,
        request_id: u64,
        context: &PluginCommandContext,
    )
        ensures
            final(self)@ == old(self)@.companion_asked(terminal, arguments, request_id, *context),
    {
        let active = self.is_plugin_instance_active(context.plugin_instance_id);
        if !context_may_use_privileged_terminal_options(context, active) {
            self.resolve_bool_for_context(context, request_id, false);
            return ;
        }
        let there = match self.windows.get(&terminal.window.0) {
            Some(window) => match window.terminals.companions.get(&terminal.terminal.0) {
                Some(companion) => match window.terminals.live.get(&terminal.terminal.0) {
                    Some(handle) => *companion == Companion::Omp && handle.alive && (
                    match handle.companion {
                        Some(kind) => kind == Companion::Omp,
                        None => false,
                    }),
                    None => false,
                },
                None => false,
            },
            None => false,
        };
        if there {
            let owner = owner_of_callbacks(context);
            self.emit(Effect::SendCompanionCommand { terminal, arguments, owner, request_id });
        } else {
            self.resolve_bool_for_context(context, request_id, false);
        }
    }
}

impl EditorModel {
    /// This editor with a promise of the sender of a command resolved with a
    /// flag.
    pub open spec fn flagging(
        self,
        context: PluginCommandContext,
        request_id: u64,
        value: bool,
    ) -> EditorModel {
        self.emitting(
            Effect::Resolve {
                owner: callback_owner(context),
                callback: JsCallbackId(request_id),
                reply: Reply::Flag(value),
            },
        )
    }

    /// Whether a terminal runs with its companion.
    pub open spec fn has_companion(self, terminal: WindowTerminalId) -> bool {
        let tables = self.window(terminal.window).terminals;
        let key = terminal.terminal.0;
        &&& self.has(terminal.window)
        &&& tables.companions.contains_key(key) && tables.companions[key] is Omp
        &&& tables.live.contains_key(key) && tables.live[key].alive
        &&& tables.live[key].companion == Some(Companion::Omp)
    }
}

impl EditorModel {
    /// This editor once a process was to be killed.
    pub open spec fn killing_host(self, window: WindowId, process_id: u64) -> EditorModel {
        if self.processes.host.contains_key(process_id)
            && self.processes.host[process_id] == window {
            (EditorModel {
                processes: OwnersModel {
                    host: self.processes.host.remove(process_id),
                    ..self.processes
                },
                ..self
            }).emitting(Effect::KillProcess { process_id })
        } else {
            self
        }
    }

    /// This editor once a process in the background was to be killed.
    pub open spec fn killing_background(self, window: WindowId, process_id: u64) -> EditorModel {
        if self.processes.background.contains_key(process_id)
            && self.processes.background[process_id] == window {
            (EditorModel {
                processes: OwnersModel {
                    background: self.processes.background.remove(process_id),
                    ..self.processes
                },
                ..self
            }).emitting(Effect::AbortBackground { process_id })
        } else {
            self
        }
    }

    /// This editor once a promise was to be resolved after a time.
    pub open spec fn delaying(self, callback: JsCallbackId, duration_ms: u64) -> EditorModel {
        if self.has_runtime() {
            self.emitting(Effect::Delay { callback, duration_ms })
        } else {
            self.emitting(Effect::Sleep { duration_ms }).emitting(
                Effect::Resolve { owner: CallbackOwner::Host, callback, reply: Reply::Null },
            )
        }
    }

    /// This editor once a download was asked for.
    pub open spec fn fetching(
        self,
        url: String,
        target_path: String,
        callback: JsCallbackId,
    ) -> EditorModel {
        if self.has_runtime() {
            self.emitting(Effect::HttpFetch { url, target_path, callback })
        } else {
            self.refusing(callback, Rejection::AsyncRuntimeMissing)
        }
    }

    /// This editor once a terminal was written to.
    pub open spec fn typing(self, terminal: WindowTerminalId, data: String) -> EditorModel {
        if self.has(terminal.window) && self.window(
            terminal.window,
        ).terminals.live.contains_key(terminal.terminal.0) {
            self.emitting(Effect::WriteTerminal { terminal, data })
        } else {
            self
        }
    }

    /// This editor once a companion was sent a command.
    pub open spec fn companion_asked(
        self,
        terminal: WindowTerminalId,
        arguments: Payload,
        request_id: u64,
        context: PluginCommandContext,
    ) -> EditorModel {
        if may_use_privileged_terminals(
            context,
            self.instance_active(context.plugin_instance_id),
        ) && self.has_companion(terminal) {
            self.emitting(
                Effect::SendCompanionCommand {
                    terminal,
                    arguments,
                    owner: callback_owner(context),
                    request_id,
                },
            )
        } else {
            self.flagging(context, request_id, false)
        }
    }
}

} // verus!
