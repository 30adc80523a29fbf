//! Moving a live terminal from one window to another.
use std::sync::Arc;
use vstd::prelude::*;

use crate::artifacts::follow_path;
use crate::artifacts::relocated;
use crate::artifacts::unrelocated;
use crate::artifacts::Relocation;
use crate::editor::Editor;
use crate::editor::EditorModel;
use crate::extraction_steps::PrepareStep;
use crate::ids::BufferId;
use crate::ids::TerminalId;
use crate::ids::WindowId;
use crate::membership::value_of;
use crate::membership::with_optional;
use crate::process_group::ProcessGroupEntry;
use crate::terminal_create::pid_tracked;
use crate::terminal_create::terminal_group_label;
use crate::terminals::Terminal;
use crate::terminals::TerminalTables;
use crate::terminals::TerminalsModel;

verus! {

/// Everything that is filed under one terminal and the buffer that shows it.
#[derive(Debug)]
pub struct Baggage {
    pub handle: Terminal,
    pub backing: Option<String>,
    pub history: Option<String>,
    pub log: Option<String>,
    pub command: Option<Arc<Vec<String>>>,
    pub resume: Option<Arc<Vec<String>>>,
    pub ephemeral: bool,
    pub tracked_agent: bool,
    pub explicit_title: bool,
    pub foreground_name: Option<String>,
}

/// [`Baggage`] as a mathematical value.
pub struct BaggageModel {
    pub handle: Terminal,
    pub backing: Option<Seq<char>>,
    pub history: Option<Seq<char>>,
    pub log: Option<Seq<char>>,
    pub command: Option<Seq<String>>,
    pub resume: Option<Arc<Vec<String>>>,
    pub ephemeral: bool,
    pub tracked_agent: bool,
    pub explicit_title: bool,
    pub foreground_name: Option<String>,
}

/// The characters of a text that may be absent.
pub open spec fn text_model(text: Option<String>) -> Option<Seq<char>> {
    match text {
        Some(text) => Some(text@),
        None => None,
    }
}

/// The words of a command line that may be absent.
pub open spec fn command_model(command: Option<Arc<Vec<String>>>) -> Option<Seq<String>> {
    match command {
        Some(command) => Some(command@),
        None => None,
    }
}

impl View for Baggage {
    type V = BaggageModel;

    open spec fn view(&self) -> BaggageModel {
        BaggageModel {
            handle: self.handle,
            backing: text_model(self.backing),
            history: text_model(self.history),
            log: text_model(self.log),
            command: command_model(self.command),
            resume: self.resume,
            ephemeral: self.ephemeral,
            tracked_agent: self.tracked_agent,
            explicit_title: self.explicit_title,
            foreground_name: self.foreground_name,
        }
    }
}

/// The path of a file once the relocations are done, or before they were.
pub open spec fn followed(
    relocations: Seq<Relocation>,
    path: Option<Seq<char>>,
    forward: bool,
) -> Option<Seq<char>> {
    match path {
        Some(path) => text_model(
            if forward {
                relocated(relocations, path)
            } else {
                unrelocated(relocations, path)
            },
        ),
        None => None,
    }
}

impl BaggageModel {
    /// This baggage with its files where the relocations put them, or had
    /// found them.
    pub open spec fn moved(self, relocations: Seq<Relocation>, forward: bool) -> BaggageModel {
        BaggageModel {
            backing: followed(relocations, self.backing, forward),
            history: followed(relocations, self.history, forward),
            log: followed(relocations, self.log, forward),
            ..self
        }
    }

    /// Whether the relocations say of each of the files where it goes.
    pub open spec fn is_covered(self, relocations: Seq<Relocation>, forward: bool) -> bool {
        &&& self.backing is Some ==> followed(relocations, self.backing, forward) is Some
        &&& self.history is Some ==> followed(relocations, self.history, forward) is Some
        &&& self.log is Some ==> followed(relocations, self.log, forward) is Some
    }
}

impl TerminalsModel {
    /// Everything that is filed under `terminal` and `buffer`.
    pub open spec fn baggage(self, buffer: BufferId, terminal: TerminalId) -> BaggageModel {
        let k = terminal.0;
        BaggageModel {
            handle: self.live[k],
            backing: value_of(self.backing_files, k),
            history: value_of(self.history_files, k),
            log: value_of(self.log_files, k),
            command: value_of(self.commands, k),
            resume: value_of(self.resume_commands, k),
            ephemeral: self.ephemeral.contains(k),
            tracked_agent: self.tracked_agent == Some(terminal),
            explicit_title: self.explicit_titles.contains(buffer.0),
            foreground_name: value_of(self.foreground_names, buffer.0),
        }
    }

    /// These tables without anything that is filed under `terminal` and
    /// `buffer`, and without its process group.
    pub open spec fn released(self, buffer: BufferId, terminal: TerminalId) -> TerminalsModel {
        let k = terminal.0;
        TerminalsModel {
            live: self.live.remove(k),
            bindings: self.bindings.remove(buffer.0),
            backing_files: self.backing_files.remove(k),
            history_files: self.history_files.remove(k),
            log_files: self.log_files.remove(k),
            commands: self.commands.remove(k),
            resume_commands: self.resume_commands.remove(k),
            ephemeral: self.ephemeral.remove(k),
            explicit_titles: self.explicit_titles.remove(buffer.0),
            foreground_names: self.foreground_names.remove(buffer.0),
            tracked_agent: if self.tracked_agent == Some(terminal) {
                None
            } else {
                self.tracked_agent
            },
            groups: match self.live[k].pid {
                Some(pid) => self.groups.filter(|e: ProcessGroupEntry| e.leader_pid != pid),
                None => self.groups,
            },
            ..self
        }
    }

    /// These tables with `baggage` filed under `terminal` and `buffer`, but
    /// without its process group.
    pub open spec fn received(
        self,
        buffer: BufferId,
        terminal: TerminalId,
        baggage: BaggageModel,
    ) -> TerminalsModel {
        let k = terminal.0;
        TerminalsModel {
            live: self.live.insert(k, baggage.handle),
            bindings: self.bindings.insert(buffer.0, terminal),
            backing_files: with_optional(self.backing_files, k, baggage.backing),
            history_files: with_optional(self.history_files, k, baggage.history),
            log_files: with_optional(self.log_files, k, baggage.log),
            commands: with_optional(self.commands, k, baggage.command),
            resume_commands: with_optional(self.resume_commands, k, baggage.resume),
            ephemeral: if baggage.ephemeral {
                self.ephemeral.insert(k)
            } else {
                self.ephemeral
            },
            explicit_titles: if baggage.explicit_title {
                self.explicit_titles.insert(buffer.0)
            } else {
                self.explicit_titles
            },
            foreground_names: with_optional(
                self.foreground_names,
                buffer.0,
                baggage.foreground_name,
            ),
            tracked_agent: if baggage.tracked_agent {
                Some(terminal)
            } else {
                self.tracked_agent
            },
            ..self
        }
    }
}

impl TerminalTables {
    /// Takes everything out that is filed under `terminal` and `buffer`.
    fn release(&mut self, buffer: BufferId, terminal: TerminalId) -> (baggage: Option<Baggage>)
        ensures
            match baggage {
                Some(baggage) => {
                    &&& old(self)@.live.contains_key(terminal.0)
                    &&& baggage@ == old(self)@.baggage(buffer, terminal)
                    &&& final(self)@ == old(self)@.released(buffer, terminal)
                },
                None => !old(self)@.live.contains_key(terminal.0) && final(self)@ == old(self)@,
            },
    {
        let ghost before = self@;
        let k = terminal.0;
        let handle = match self.live.remove(&k) {
            Some(handle) => handle,
            None => {
                proof {
                    assert(self@.live =~= before.live);
                }
                return None;
            },
        };
        self.bindings.remove(&buffer.0);
        let backing = self.backing_files.remove(&k);
        let history = self.history_files.remove(&k);
        let log = self.log_files.remove(&k);
        let command = self.commands.remove(&k);
        let resume = self.resume_commands.remove(&k);
        let ephemeral = self.ephemeral.remove(&k);
        let explicit_title = self.explicit_titles.remove(&buffer.0);
        let foreground_name = self.foreground_names.remove(&buffer.0);
        let tracked_agent = self.tracked_agent == Some(terminal);
        if tracked_agent {
            self.tracked_agent = None;
        }
        if let Some(pid) = handle.pid {
            self.process_groups.forget(pid);
        }
        proof {
            assert(self@.backing_files =~= before.backing_files.remove(k));
            assert(self@.history_files =~= before.history_files.remove(k));
            assert(self@.log_files =~= before.log_files.remove(k));
            assert(self@.commands =~= before.commands.remove(k));
        }
        Some(
            Baggage {
                handle,
                backing,
                history,
                log,
                command,
                resume,
                ephemeral,
                tracked_agent,
                explicit_title,
                foreground_name,
            },
        )
    }

    /// Files `baggage` under `terminal` and `buffer`.
    fn receive(&mut self, buffer: BufferId, terminal: TerminalId, baggage: Baggage)
        ensures
            pid_tracked(
                old(self)@.received(buffer, terminal, baggage@),
                baggage.handle.pid,
                terminal,
                final(self)@,
            ),
    {
        let ghost before = self@;
        let k = terminal.0;
        let pid = baggage.handle.pid;
        self.live.insert(k, baggage.handle);
        self.bindings.insert(buffer.0, terminal);
        if let Some(path) = baggage.backing {
            self.backing_files.insert(k, path);
            proof {
                assert(self@.backing_files =~= before.backing_files.insert(k, path@));
            }
        }
        if let Some(path) = baggage.history {
            self.history_files.insert(k, path);
            proof {
                assert(self@.history_files =~= before.history_files.insert(k, path@));
            }
        }
        if let Some(path) = baggage.log {
            self.log_files.insert(k, path);
            proof {
                assert(self@.log_files =~= before.log_files.insert(k, path@));
            }
        }
        if let Some(command) = baggage.command {
            self.commands.insert(k, command);
            proof {
                assert(self@.commands =~= before.commands.insert(k, command@));
            }
        }
        if let Some(resume) = baggage.resume {
            self.resume_commands.insert(k, resume);
        }
        if baggage.ephemeral {
            self.ephemeral.insert(k);
        }
        if baggage.tracked_agent {
            self.tracked_agent = Some(terminal);
        }
        if baggage.explicit_title {
            self.explicit_titles.insert(buffer.0);
        }
        if let Some(name) = baggage.foreground_name {
            self.foreground_names.insert(buffer.0, name);
        }
        if let Some(pid) = pid {
            let label = terminal_group_label(terminal);
            self.process_groups.register(pid, label.as_str());
        }
    }
}

/// The path of a file once the relocations are done, or before they were.
fn follow_optional(relocations: &Vec<Relocation>, path: Option<String>, forward: bool) -> (found: Option<
    String,
>)
    ensures
        text_model(found) == followed(relocations@, text_model(path), forward),
{
    match path {
        Some(path) => follow_path(relocations, path.as_str(), forward),
        None => None,
    }
}

/// Whether a terminal can move between two windows: both are there, and the
/// buffer shows this very terminal, which is alive.
pub open spec fn can_transfer(
    editor: EditorModel,
    source: WindowId,
    target: WindowId,
    buffer: BufferId,
    terminal: TerminalId,
) -> bool {
    &&& source != target
    &&& editor.has(source)
    &&& editor.has(target)
    &&& editor.window(source).terminals.terminal_of(buffer) == Some(terminal)
    &&& editor.window(source).terminals.live.contains_key(terminal.0)
}

/// Whether `after` is `before` with a terminal moved from `source`, where it
/// was `terminal`, to `target`, where it is `new_terminal`.
pub open spec fn is_transferred(
    before: EditorModel,
    source: WindowId,
    target: WindowId,
    buffer: BufferId,
    terminal: TerminalId,
    new_terminal: TerminalId,
    relocations: Seq<Relocation>,
    forward: bool,
    after: EditorModel,
) -> bool {
    let from = before.window(source);
    let to = before.window(target);
    let baggage = from.terminals.baggage(buffer, terminal);
    let tables = after.window(target).terminals;
    &&& pid_tracked(
        to.terminals.received(buffer, new_terminal, baggage.moved(relocations, forward)),
        baggage.handle.pid,
        new_terminal,
        tables,
    )
    &&& after == before.with_window(
        source,
        from.with_terminals(from.terminals.released(buffer, terminal)),
    ).with_window(target, to.with_terminals(tables))
}

impl Editor {
    /// Whether a terminal can move between two windows.
    pub fn terminal_can_move(
        &self,
        source: WindowId,
        target: WindowId,
        buffer: BufferId,
        terminal: TerminalId,
    ) -> (can: bool)
        ensures
            can == can_transfer(self@, source, target, buffer, terminal),
    {
        if source == target || !self.has_window(target) {
            return false;
        }
        match self.windows.get(&source.0) {
            Some(window) => window.terminals.get_terminal_id(buffer) == Some(terminal)
                && window.terminals.live.contains_key(&terminal.0),
            None => false,
        }
    }

    /// Moves every piece of a terminal from the window `source`, where it is
    /// `terminal`, to the window `target`, where it is `new_terminal`: the PTY,
    /// its files, command lines, titles, and its process group. Forward the
    /// files have been relocated; backward they are back where they were.
    pub(crate) fn carry_terminal(
        &mut self,
        source: WindowId,
        target: WindowId,
        buffer: BufferId,
        terminal: TerminalId,
        new_terminal: TerminalId,
        relocations: &Vec<Relocation>,
        forward: bool,
    ) -> (moved: bool)
        requires
            can_transfer(old(self)@, source, target, buffer, terminal) ==> old(self)@.window(
                source,
            ).terminals.baggage(buffer, terminal).is_covered(relocations@, forward),
        ensures
            moved == can_transfer(old(self)@, source, target, buffer, terminal),
            if moved {
                is_transferred(
                    old(self)@,
                    source,
                    target,
                    buffer,
                    terminal,
                    new_terminal,
                    relocations@,
                    forward,
                    final(self)@,
                )
            } else {
                final(self)@ == old(self)@
            },
    {
        if !self.terminal_can_move(source, target, buffer, terminal) {
            return false;
        }
        let ghost before = self@;
        if let Some(mut from) = self.take_window(source) {
            let released = from.terminals.release(buffer, terminal);
            let ghost left = from@;
            self.put_window(source, from);
            proof {
                assert(before.without_window(source).with_window(source, left).windows
                    =~= before.with_window(source, left).windows);
            }
            if let Some(baggage) = released {
                let ghost carried = baggage@;
                let moved = Baggage {
                    backing: follow_optional(relocations, baggage.backing, forward),
                    history: follow_optional(relocations, baggage.history, forward),
                    log: follow_optional(relocations, baggage.log, forward),
                    handle: baggage.handle,
                    command: baggage.command,
                    resume: baggage.resume,
                    ephemeral: baggage.ephemeral,
                    tracked_agent: baggage.tracked_agent,
                    explicit_title: baggage.explicit_title,
                    foreground_name: baggage.foreground_name,
                };
                proof {
                    assert(moved@ == carried.moved(relocations@, forward));
                }
                let ghost half = self@;
                if let Some(mut to) = self.take_window(target) {
                    to.terminals.receive(buffer, new_terminal, moved);
                    let ghost gained = to@;
                    self.put_window(target, to);
                    proof {
                        assert(half.without_window(target).with_window(target, gained).windows
                            =~= half.with_window(target, gained).windows);
                    }
                }
            }
        }
        true
    }

    /// Moves a terminal from the window `source`, where it is `terminal`, to the
    /// window `target`, which has adopted it as `new_terminal`. All that comes
    /// before has worked: the files that may move early are where the relocations
    /// put them, and the handle is the target's.
    pub fn move_terminal_machinery_to_window(
        &mut self,
        source: WindowId,
        target: WindowId,
        buffer: BufferId,
        terminal: TerminalId,
        new_terminal: TerminalId,
        relocations: &Vec<Relocation>,
        step: PrepareStep,
    ) -> (moved: bool)
        requires
            step is Prepared,
            can_transfer(old(self)@, source, target, buffer, terminal) ==> old(self)@.window(
                source,
            ).terminals.baggage(buffer, terminal).is_covered(relocations@, true),
        ensures
            moved == can_transfer(old(self)@, source, target, buffer, terminal),
            if moved {
                is_transferred(
                    old(self)@,
                    source,
                    target,
                    buffer,
                    terminal,
                    new_terminal,
                    relocations@,
                    true,
                    final(self)@,
                )
            } else {
                final(self)@ == old(self)@
            },
    {
        self.carry_terminal(source, target, buffer, terminal, new_terminal, relocations, true)
    }
}

} // verus!
