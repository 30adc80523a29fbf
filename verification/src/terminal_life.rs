//! Closing terminals, and signalling and stopping what a window runs.
use vstd::prelude::*;

use crate::editor::Editor;
use crate::editor::EditorModel;
use crate::editor::RemoteModel;
use crate::effects::Effect;
use crate::effects::EffectModel;
use crate::effects::SignalName;
use crate::effects::SnapshotTarget;
use crate::ids::BufferId;
use crate::ids::TerminalId;
use crate::ids::WindowId;
use crate::ids::WindowTerminalId;
use crate::lists::is_increasing;
use crate::lists::is_sorted_domain;
use crate::lists::lemma_sorted_members;
use crate::lists::merge_sorted;
use crate::lists::retain_where;
use crate::lists::sorted_keys;
use crate::lists::sorted_members;
use crate::process_group::after_answers;
use crate::process_group::is_current;
use crate::process_group::admits_current;
use crate::process_group::answers_target;
use crate::process_group::ProcessGroupEntry;
use crate::process_group::Signaller;
use crate::terminals::TerminalsModel;
use crate::text::same_text;
use crate::window::Window;
use crate::window::WindowModel;
use crate::windows::purge_effects;

verus! {

/// Whether the signal ends what it is sent to.
pub open spec fn terminates(signal: SignalName) -> bool {
    signal is Terminate || signal is Kill
}

/// The signal that a name stands for.
pub open spec fn signal_called(name: String) -> SignalName {
    if name@ == "SIGTERM"@ {
        SignalName::Terminate
    } else if name@ == "SIGKILL"@ {
        SignalName::Kill
    } else {
        SignalName::Other(name)
    }
}

/// The signal that a name stands for.
pub fn name_signal(name: String) -> (signal: SignalName)
    ensures
        signal == signal_called(name),
{
    if same_text(name.as_str(), "SIGTERM") {
        SignalName::Terminate
    } else if same_text(name.as_str(), "SIGKILL") {
        SignalName::Kill
    } else {
        SignalName::Other(name)
    }
}

impl SignalName {
    /// The name of the signal.
    pub open spec fn spec_text(self) -> Seq<char> {
        match self {
            SignalName::Terminate => "SIGTERM"@,
            SignalName::Kill => "SIGKILL"@,
            SignalName::Other(name) => name@,
        }
    }

    /// The name of the signal.
    pub fn text(&self) -> (text: &str)
        ensures
            text@ == self.spec_text(),
    {
        match self {
            SignalName::Terminate => "SIGTERM",
            SignalName::Kill => "SIGKILL",
            SignalName::Other(name) => name.as_str(),
        }
    }
}

/// A signal is called by the name that stood for it.
pub proof fn signals_keep_their_names(name: String)
    ensures
        signal_called(name).spec_text() == name@,
{
}

/// Whether a terminal of `window` runs, or is shown in a buffer.
pub open spec fn runs_terminal(window: WindowModel) -> spec_fn(u64) -> bool {
    |k: u64|
        window.terminals.live.contains_key(k) || exists|b: u64|
            #[trigger] window.terminals.bindings.contains_key(b)
                && window.terminals.bindings[b].0 == k
}

/// Whether `buffer` shows the terminal `terminal`.
pub open spec fn binds(window: WindowModel, terminal: TerminalId) -> spec_fn(u64) -> bool {
    |b: u64|
        window.terminals.bindings.contains_key(b) && window.terminals.bindings[b] == terminal
}

/// The list with `terminal` in it, at the end if it is new.
pub open spec fn with_tombstone(
    tombstones: Seq<WindowTerminalId>,
    terminal: WindowTerminalId,
) -> Seq<WindowTerminalId> {
    if tombstones.contains(terminal) {
        tombstones
    } else {
        tombstones.push(terminal)
    }
}

/// The list with all terminals of `window` that `terminals` names in it.
pub open spec fn with_tombstones(
    tombstones: Seq<WindowTerminalId>,
    window: WindowId,
    terminals: Seq<u64>,
) -> Seq<WindowTerminalId>
    decreases terminals.len(),
{
    if terminals.len() == 0 {
        tombstones
    } else {
        with_tombstone(
            with_tombstones(tombstones, window, terminals.drop_last()),
            WindowTerminalId { window, terminal: TerminalId(terminals.last()) },
        )
    }
}

/// The effects that end the terminals of a window.
pub open spec fn ending_effects(window: WindowId, terminals: Seq<u64>) -> Seq<EffectModel>
    decreases terminals.len(),
{
    if terminals.len() == 0 {
        Seq::empty()
    } else {
        ending_effects(window, terminals.drop_last()).push(
            EffectModel::Plain(
                Effect::RevokeScriptToken { window, terminal: TerminalId(terminals.last()) },
            ),
        ).push(
            EffectModel::Plain(
                Effect::CloseTerminal { window, terminal: TerminalId(terminals.last()) },
            ),
        )
    }
}

impl TerminalsModel {
    /// These tables with nothing filed under a terminal that has ended, but
    /// for the buffers that show it and its files.
    pub open spec fn terminal_ended(self, k: u64) -> TerminalsModel {
        TerminalsModel {
            live: self.live.remove(k),
            commands: self.commands.remove(k),
            resume_commands: self.resume_commands.remove(k),
            companions: self.companions.remove(k),
            ephemeral: self.ephemeral.remove(k),
            script_tokens: self.script_tokens.remove(k),
            ..self
        }
    }

    /// These tables once all of `terminals` have ended.
    pub open spec fn terminals_ended(self, terminals: Seq<u64>) -> TerminalsModel
        decreases terminals.len(),
    {
        if terminals.len() == 0 {
            self
        } else {
            self.terminals_ended(terminals.drop_last()).terminal_ended(terminals.last())
        }
    }
}

impl EditorModel {
    /// This editor with a terminal on the list of those that must not come
    /// back.
    pub open spec fn buried(self, terminal: WindowTerminalId) -> EditorModel {
        EditorModel { tombstones: with_tombstone(self.tombstones, terminal), ..self }
    }

    /// This editor with a terminal no longer waiting for its backend.
    pub open spec fn reattach_dropped(self, terminal: WindowTerminalId) -> EditorModel {
        let key = terminal.window.0;
        let pending = self.remote.pending_reattach;
        if pending.contains_key(key) {
            let left = pending[key].filter(|t: TerminalId| t != terminal.terminal);
            EditorModel {
                remote: RemoteModel {
                    pending_reattach: if left.len() == 0 {
                        pending.remove(key)
                    } else {
                        pending.insert(key, left)
                    },
                    ..self.remote
                },
                ..self
            }
        } else {
            self
        }
    }

    /// This editor after it was asked to close a terminal. The first buffer
    /// that shows it is closed with it.
    pub open spec fn terminal_closed(self, terminal: WindowTerminalId) -> EditorModel {
        if !self.has(terminal.window) {
            self
        } else {
            let window = self.window(terminal.window);
            let buffers = sorted_members(binds(window, terminal.terminal));
            let retired = self.buried(terminal).reattach_dropped(terminal);
            if buffers.len() > 0 {
                retired.visiting(terminal.window).emitting(
                    Effect::CloseBuffer {
                        window: terminal.window,
                        buffer: BufferId(buffers[0]),
                    },
                ).emitting(
                    Effect::RefreshSnapshot {
                        target: SnapshotTarget::Shared,
                        window: self.active_window,
                        scope: None,
                    },
                )
            } else {
                let terminals = TerminalsModel {
                    tracked_agent: if window.terminals.tracked_agent == Some(terminal.terminal) {
                        None
                    } else {
                        window.terminals.tracked_agent
                    },
                    companions: window.terminals.companions.remove(terminal.terminal.0),
                    live: window.terminals.live.remove(terminal.terminal.0),
                    ..window.terminals
                };
                retired.emitting(Effect::PurgeCompanion { terminal }).with_window(
                    terminal.window,
                    window.with_terminals(terminals),
                ).emitting(
                    Effect::CloseTerminal {
                        window: terminal.window,
                        terminal: terminal.terminal,
                    },
                )
            }
        }
    }

    /// This editor with the window `id`'s terminals marked as stopped for good.
    pub open spec fn terminals_buried(self, id: WindowId) -> EditorModel {
        let terminals = sorted_members(runs_terminal(self.window(id)));
        let cancelled = self.reconnect_cancelled(id);
        EditorModel {
            remote: RemoteModel {
                pending_reattach: cancelled.remote.pending_reattach.remove(id.0),
                ..cancelled.remote
            },
            tombstones: with_tombstones(cancelled.tombstones, id, terminals),
            ..cancelled
        }.asking_all(purge_effects(id, terminals))
    }

    /// This editor after it was asked to signal the window `id`. A signal that
    /// ends things ends the terminals of the window too.
    pub open spec fn signalled(self, id: WindowId, signal: SignalName) -> EditorModel {
        if !self.has(id) {
            self
        } else if !terminates(signal) {
            self.emitting(Effect::Signal { window: id, signal })
        } else {
            let window = self.window(id);
            let terminals = sorted_members(runs_terminal(window));
            self.terminals_buried(id).emitting(Effect::Signal { window: id, signal }).with_window(
                id,
                window.with_terminals(
                    TerminalsModel {
                        tracked_agent: None,
                        ..window.terminals.terminals_ended(terminals)
                    },
                ),
            ).asking_all(ending_effects(id, terminals))
        }
    }

    /// This editor after the window `id` was asked to stop: everything gets
    /// SIGTERM now, and what is registered now gets SIGKILL later.
    pub open spec fn stopped(self, id: WindowId, grace_ms: u64) -> EditorModel {
        if !self.has(id) {
            self
        } else {
            let targets = self.window(id).terminals.groups;
            let signalled = self.signalled(id, SignalName::Terminate);
            if targets.len() == 0 {
                signalled
            } else if self.config.bridge {
                signalled.asking(EffectModel::EscalateLater { window: id, targets, grace_ms })
            } else {
                signalled.escalated(id, targets)
            }
        }
    }

    /// This editor after the time to stop has passed for `targets`: SIGKILL
    /// goes to those which are still the registrations that were meant.
    pub open spec fn escalated(self, id: WindowId, targets: Seq<ProcessGroupEntry>) -> EditorModel {
        if self.has(id) {
            let groups = self.window(id).terminals.groups;
            self.asking(
                EffectModel::Escalate {
                    window: id,
                    targets: targets.filter(|t: ProcessGroupEntry| is_current(groups, t)),
                },
            )
        } else {
            self
        }
    }
}

/// Puts `terminal` on the list, where it is not.
fn add_tombstone(tombstones: &mut Vec<WindowTerminalId>, terminal: WindowTerminalId)
    ensures
        final(tombstones)@ == with_tombstone(old(tombstones)@, terminal),
{
    let mut at: usize = 0;
    while at < tombstones.len()
        invariant
            at <= tombstones.len(),
            tombstones@ == old(tombstones)@,
            forall|i: int| 0 <= i < at ==> tombstones@[i] != terminal,
        decreases tombstones.len() - at,
    {
        if tombstones[at] == terminal {
            return ;
        }
        at = at + 1;
    }
    tombstones.push(terminal);
}

/// The terminals of `window` that run or are shown.
fn running_terminals(window: &Window) -> (terminals: Vec<u64>)
    ensures
        terminals@ == sorted_members(runs_terminal(window@)),
{
    let live = sorted_keys(&window.terminals.live);
    let bindings = sorted_keys(&window.terminals.bindings);
    let mut shown: Vec<u64> = Vec::new();
    let mut at: usize = 0;
    while at < bindings.len()
        invariant
            at <= bindings.len(),
            is_sorted_domain(bindings@, window.terminals.bindings@),
            shown@.len() == at,
            forall|i: int|
                0 <= i < at ==> #[trigger] shown@[i]
                    == window.terminals.bindings@[bindings@[i]].0,
        decreases bindings.len() - at,
    {
        let key = bindings[at];
        proof {
            assert(bindings@.contains(key));
        }
        if let Some(terminal) = window.terminals.bindings.get(&key) {
            shown.push(terminal.0);
        }
        at = at + 1;
    }
    let merged = merge_sorted(live, &shown);
    proof {
        let model = window@;
        assert forall|k: u64| #[trigger] merged@.contains(k) <==> runs_terminal(model)(k) by {
            if shown@.contains(k) {
                let i = shown@.index_of(k);
                assert(bindings@.contains(bindings@[i]));
                assert(model.terminals.bindings.contains_key(bindings@[i]));
            }
            if exists|b: u64|
                #[trigger] model.terminals.bindings.contains_key(b)
                    && model.terminals.bindings[b].0 == k {
                let b = choose|b: u64| #[trigger]
                    model.terminals.bindings.contains_key(b) && model.terminals.bindings[b].0 == k;
                assert(bindings@.contains(b));
                let i = bindings@.index_of(b);
                assert(shown@[i] == k);
            }
        }
        lemma_sorted_members(merged@, runs_terminal(model));
    }
    merged
}

/// The first buffer of `window` that shows `terminal`.
fn bound_buffer(window: &Window, terminal: TerminalId) -> (buffer: Option<BufferId>)
    ensures
        ({
            let buffers = sorted_members(binds(window@, terminal));
            buffer == if buffers.len() > 0 {
                Some(BufferId(buffers[0]))
            } else {
                None
            }
        }),
{
    let ghost wanted = binds(window@, terminal);
    let keys = sorted_keys(&window.terminals.bindings);
    proof {
        crate::lists::lemma_filter_increasing(keys@, wanted);
        let shown = keys@.filter(wanted);
        assert forall|b: u64| #[trigger] shown.contains(b) <==> wanted(b) by {
            assert(keys@.contains(b) <==> window@.terminals.bindings.contains_key(b));
        }
        lemma_sorted_members(shown, wanted);
    }
    let ghost buffers = sorted_members(wanted);
    let mut at: usize = 0;
    while at < keys.len()
        invariant
            at <= keys.len(),
            wanted == binds(window@, terminal),
            is_sorted_domain(keys@, window.terminals.bindings@),
            is_increasing(buffers),
            buffers == sorted_members(wanted),
            forall|b: u64| #[trigger] buffers.contains(b) <==> wanted(b),
            forall|i: int| 0 <= i < at ==> !wanted(#[trigger] keys@[i]),
        decreases keys.len() - at,
    {
        let key = keys[at];
        proof {
            assert(keys@.contains(key));
        }
        if let Some(bound) = window.terminals.bindings.get(&key) {
            if *bound == terminal {
                proof {
                    assert(wanted(key));
                    assert(buffers.contains(key));
                    let n = buffers.index_of(key);
                    assert(buffers.contains(buffers[0]));
                    assert(wanted(buffers[0]));
                    assert(keys@.contains(buffers[0]));
                    let m = keys@.index_of(buffers[0]);
                    assert(m >= at);
                    assert(n == 0) by {
                        if n > 0 {
                            assert(buffers[0] < buffers[n]);
                            if m > at {
                                assert(keys@[at as int] < keys@[m]);
                            }
                        }
                    }
                }
                return Some(BufferId(key));
            }
        }
        at = at + 1;
    }
    proof {
        if buffers.len() > 0 {
            assert(buffers.contains(buffers[0]));
            assert(keys@.contains(buffers[0]));
            let m = keys@.index_of(buffers[0]);
            assert(!wanted(keys@[m]));
        }
    }
    None
}

impl Editor {
    /// Takes a terminal off the list of those that wait for their backend.
    fn drop_reattach(&mut self, terminal: WindowTerminalId)
        ensures
            final(self)@ == old(self)@.reattach_dropped(terminal),
    {
        let ghost before = self@;
        let key = terminal.window.0;
        let ghost kept = |t: TerminalId| t != terminal.terminal;
        match self.remote.pending_reattach.remove(&key) {
            Some(mut pending) => {
                let wanted = terminal.terminal;
                let keep = |t: &TerminalId| -> (b: bool)
                    ensures
                        b == (*t != wanted),
                {
                    *t != wanted
                };
                retain_where(&mut pending, keep, Ghost(kept));
                if !pending.is_empty() {
                    self.remote.pending_reattach.insert(key, pending);
                }
                proof {
                    assert(self@.remote.pending_reattach =~= before.reattach_dropped(
                        terminal,
                    ).remote.pending_reattach);
                }
            },
            None => {
                proof {
                    assert(self@.remote.pending_reattach =~= before.remote.pending_reattach);
                }
            },
        }
    }

    /// Closes a terminal, with the buffer that shows it.
    pub fn handle_close_terminal(&mut self, terminal: WindowTerminalId)
        ensures
            final(self)@ == old(self)@.terminal_closed(terminal),
    {
        let ghost before = self@;
        let buffer = match self.windows.get(&terminal.window.0) {
            Some(window) => bound_buffer(window, terminal.terminal),
            None => {
                return ;
            },
        };
        add_tombstone(&mut self.tombstones, terminal);
        self.drop_reattach(terminal);
        if let Some(buffer) = buffer {
            let previous = self.active_window;
            self.switch_active_window_pointer(terminal.window);
            self.switch_active_window_pointer(previous);
            self.emit(Effect::CloseBuffer { window: terminal.window, buffer });
            self.emit(
                Effect::RefreshSnapshot {
                    target: SnapshotTarget::Shared,
                    window: self.active_window,
                    scope: None,
                },
            );
            return ;
        }
        self.emit(Effect::PurgeCompanion { terminal });
        let ghost purged = self@;
        if let Some(mut window) = self.take_window(terminal.window) {
            if window.terminals.tracked_agent == Some(terminal.terminal) {
                window.terminals.tracked_agent = None;
            }
            window.terminals.companions.remove(&terminal.terminal.0);
            window.terminals.live.remove(&terminal.terminal.0);
            let ghost made = window@;
            self.put_window(terminal.window, window);
            proof {
                assert(purged.without_window(terminal.window).with_window(terminal.window, made).windows
                    =~= purged.with_window(terminal.window, made).windows);
            }
        }
        self.emit(
            Effect::CloseTerminal { window: terminal.window, terminal: terminal.terminal },
        );
    }

    /// Marks the terminals of a window as stopped for good.
    fn bury_terminals(&mut self, id: WindowId, terminals: &Vec<u64>)
        requires
            old(self)@.has(id),
            terminals@ == sorted_members(runs_terminal(old(self)@.window(id))),
        ensures
            final(self)@ == old(self)@.terminals_buried(id),
    {
        self.cancel_remote_reconnect(id);
        self.forget_reattach(id);
        let ghost before = self@;
        let mut at: usize = 0;
        while at < terminals.len()
            invariant
                at <= terminals.len(),
                self@ == (EditorModel {
                    tombstones: with_tombstones(
                        before.tombstones,
                        id,
                        terminals@.take(at as int),
                    ),
                    ..before
                }),
            decreases terminals.len() - at,
        {
            proof {
                let next = terminals@.take(at + 1);
                assert(next.drop_last() =~= terminals@.take(at as int));
                assert(next.last() == terminals@[at as int]);
            }
            add_tombstone(
                &mut self.tombstones,
                WindowTerminalId { window: id, terminal: TerminalId(terminals[at]) },
            );
            at = at + 1;
        }
        proof {
            assert(terminals@.take(terminals@.len() as int) =~= terminals@);
        }
        self.emit_purges(id, terminals);
    }

    /// Ends the terminals of a window.
    fn end_terminals(&mut self, id: WindowId, terminals: &Vec<u64>)
        requires
            old(self)@.has(id),
        ensures
            ({
                let window = old(self)@.window(id);
                final(self)@ == old(self)@.with_window(
                    id,
                    window.with_terminals(
                        TerminalsModel {
                            tracked_agent: None,
                            ..window.terminals.terminals_ended(terminals@)
                        },
                    ),
                ).asking_all(ending_effects(id, terminals@))
            }),
    {
        let ghost before = self@;
        let ghost model = before.window(id);
        if let Some(mut window) = self.take_window(id) {
            let mut effects: Vec<Effect> = Vec::new();
            let mut at: usize = 0;
            while at < terminals.len()
                invariant
                    at <= terminals.len(),
                    window@ == model.with_terminals(
                        model.terminals.terminals_ended(terminals@.take(at as int)),
                    ),
                    crate::editor::effect_models(effects@) == ending_effects(
                        id,
                        terminals@.take(at as int),
                    ),
                decreases terminals.len() - at,
            {
                let k = terminals[at];
                proof {
                    let next = terminals@.take(at + 1);
                    assert(next.drop_last() =~= terminals@.take(at as int));
                    assert(next.last() == k);
                }
                let ghost step = window@;
                let ghost asked = effects@;
                window.terminals.live.remove(&k);
                window.terminals.commands.remove(&k);
                window.terminals.resume_commands.remove(&k);
                window.terminals.companions.remove(&k);
                window.terminals.ephemeral.remove(&k);
                window.terminals.script_tokens.remove(&k);
                effects.push(Effect::RevokeScriptToken { window: id, terminal: TerminalId(k) });
                effects.push(Effect::CloseTerminal { window: id, terminal: TerminalId(k) });
                proof {
                    assert(window@.terminals.commands =~= step.terminals.commands.remove(k));
                    assert(window@.terminals == step.terminals.terminal_ended(k));
                    assert(crate::editor::effect_models(effects@) =~= ending_effects(
                        id,
                        terminals@.take(at + 1),
                    ));
                }
                at = at + 1;
            }
            proof {
                assert(terminals@.take(terminals@.len() as int) =~= terminals@);
            }
            window.terminals.tracked_agent = None;
            let ghost made = window@;
            self.put_window(id, window);
            proof {
                assert(before.without_window(id).with_window(id, made).windows
                    =~= before.with_window(id, made).windows);
            }
            self.emit_all(effects);
        }
    }

    /// Signals everything that a window runs. A signal that ends things ends
    /// the window's terminals too, and they do not come back.
    pub fn handle_signal_window(&mut self, id: WindowId, signal: SignalName)
        ensures
            final(self)@ == old(self)@.signalled(id, signal),
    {
        let terminals = match self.windows.get(&id.0) {
            Some(window) => running_terminals(window),
            None => {
                return ;
            },
        };
        let terminating = match &signal {
            SignalName::Terminate | SignalName::Kill => true,
            SignalName::Other(_) => false,
        };
        if !terminating {
            self.emit(Effect::Signal { window: id, signal });
            return ;
        }
        self.bury_terminals(id, &terminals);
        self.emit(Effect::Signal { window: id, signal });
        self.end_terminals(id, &terminals);
    }

    /// Signals those of `targets` which are still the registrations of the window
    /// `id` that were meant, and takes the answers.
    pub fn signal_groups<S: Signaller + ?Sized>(
        &mut self,
        id: WindowId,
        signaller: &S,
        signal_name: &str,
        targets: &[ProcessGroupEntry],
    ) -> (outcomes: Vec<(ProcessGroupEntry, Result<bool, String>)>)
        requires
            old(self)@.has(id) ==> admits_current(
                signaller,
                old(self)@.window(id).terminals.groups,
                targets@,
            ),
        ensures
            if old(self)@.has(id) {
                let window = old(self)@.window(id);
                let groups = window.terminals.groups;
                &&& outcomes@.len() == targets@.len()
                &&& forall|i: int|
                    0 <= i < outcomes@.len() ==> #[trigger] answers_target(
                        signaller,
                        signal_name,
                        groups,
                        targets@,
                        outcomes@,
                        i,
                    )
                &&& final(self)@ == old(self)@.with_window(
                    id,
                    window.with_terminals(
                        TerminalsModel {
                            groups: after_answers(
                                groups,
                                targets@,
                                outcomes@,
                                targets@.len() as int,
                            ),
                            ..window.terminals
                        },
                    ),
                )
            } else {
                outcomes@.len() == 0 && final(self)@ == old(self)@
            },
    {
        let ghost before = self@;
        match self.take_window(id) {
            Some(mut window) => {
                let outcomes = window.terminals.process_groups.signal_targets(
                    signaller,
                    signal_name,
                    targets,
                );
                let ghost made = window@;
                self.put_window(id, window);
                proof {
                    assert(before.without_window(id).with_window(id, made).windows
                        =~= before.with_window(id, made).windows);
                }
                outcomes
            },
            None => Vec::new(),
        }
    }

    /// Stops everything that a window runs: SIGTERM now, and SIGKILL after
    /// `grace_ms` for exactly the processes that are registered now.
    pub fn handle_stop_window(&mut self, id: WindowId, grace_ms: u64)
        ensures
            final(self)@ == old(self)@.stopped(id, grace_ms),
    {
        let targets = match self.windows.get(&id.0) {
            Some(window) => window.terminals.process_groups.snapshot(),
            None => {
                return ;
            },
        };
        self.handle_signal_window(id, SignalName::Terminate);
        if targets.is_empty() {
            return ;
        }
        if self.config.bridge {
            self.emit(Effect::EscalateLater { window: id, targets, grace_ms });
        } else {
            self.handle_window_stop_escalation(id, targets);
        }
    }

    /// Sends SIGKILL to those of `targets` which are still the registrations
    /// that were meant when the window was stopped.
    pub fn handle_window_stop_escalation(&mut self, id: WindowId, targets: Vec<ProcessGroupEntry>)
        ensures
            final(self)@ == old(self)@.escalated(id, targets@),
    {
        let ghost before = self@;
        let mut targets = targets;
        if let Some(window) = self.windows.get(&id.0) {
            let ghost groups = window.terminals@.groups;
            let ghost kept = |t: ProcessGroupEntry| is_current(groups, t);
            let table = &window.terminals.process_groups;
            let keep = |t: &ProcessGroupEntry| -> (b: bool)
                ensures
                    b == is_current(table.spec_entries(), *t),
            {
                table.is_registered(t)
            };
            retain_where(&mut targets, keep, Ghost(kept));
            self.emit(Effect::Escalate { window: id, targets });
        }
    }
}

} // verus!
