//! The terminals of a window and everything that is filed under them.
use std::collections::BTreeMap;
use std::collections::BTreeSet;
use std::sync::Arc;
use vstd::prelude::*;

use crate::ids::BufferId;
use crate::ids::LeafId;
use crate::ids::TerminalId;
use crate::process_group::ProcessGroupEntry;
use crate::process_group::ProcessTable;

verus! {

/// A program that accompanies a terminal.
#[derive(Clone, Copy, Debug, PartialEq, Eq, Structural)]
pub enum Companion {
    Omp,
}

/// A live terminal.
#[derive(Debug)]
pub struct Terminal {
    pub alive: bool,
    pub pid: Option<u32>,
    /// Whether the program asked for mouse reports.
    pub wants_mouse: bool,
    /// Whether the program asked for reports of motion without a button.
    pub wants_mouse_motion: bool,
    pub alternate_screen: bool,
    pub companion: Option<Companion>,
    pub cwd: Option<String>,
}

/// A split that shows the scrollback of a terminal instead of its live grid.
#[derive(Clone, Copy, Debug, PartialEq, Eq, Structural)]
pub struct ScrollbackView {
    pub split: LeafId,
    pub buffer: BufferId,
    /// Whether a selection gesture led there, so that the live grid comes back
    /// when the gesture is over.
    pub by_drag: bool,
}

/// The terminals of a window. Keys are terminal ids, but for `bindings`,
/// `explicit_titles` and `foreground_names`, whose keys are buffer ids.
#[derive(Debug)]
pub struct TerminalTables {
    pub live: BTreeMap<u64, Terminal>,
    /// The terminal that each terminal buffer shows.
    pub bindings: BTreeMap<u64, TerminalId>,
    pub backing_files: BTreeMap<u64, String>,
    pub history_files: BTreeMap<u64, String>,
    pub log_files: BTreeMap<u64, String>,
    pub commands: BTreeMap<u64, Arc<Vec<String>>>,
    pub resume_commands: BTreeMap<u64, Arc<Vec<String>>>,
    pub companions: BTreeMap<u64, Companion>,
    pub ephemeral: BTreeSet<u64>,
    /// The terminals whose child may drive the editor.
    pub script_tokens: BTreeSet<u64>,
    pub explicit_titles: BTreeSet<u64>,
    pub foreground_names: BTreeMap<u64, String>,
    pub tracked_agent: Option<TerminalId>,
    pub scrollback_views: Vec<ScrollbackView>,
    pub process_groups: ProcessTable,
}

/// [`TerminalTables`] as a mathematical value.
pub struct TerminalsModel {
    pub live: Map<u64, Terminal>,
    pub bindings: Map<u64, TerminalId>,
    pub backing_files: Map<u64, Seq<char>>,
    pub history_files: Map<u64, Seq<char>>,
    pub log_files: Map<u64, Seq<char>>,
    pub commands: Map<u64, Seq<String>>,
    pub resume_commands: Map<u64, Arc<Vec<String>>>,
    pub companions: Map<u64, Companion>,
    pub ephemeral: Set<u64>,
    pub script_tokens: Set<u64>,
    pub explicit_titles: Set<u64>,
    pub foreground_names: Map<u64, String>,
    pub tracked_agent: Option<TerminalId>,
    pub scrollback_views: Seq<ScrollbackView>,
    pub groups: Seq<ProcessGroupEntry>,
    pub next_incarnation: u64,
}

/// Texts as mathematical values.
pub open spec fn text_models(texts: Map<u64, String>) -> Map<u64, Seq<char>> {
    texts.map_values(|s: String| s@)
}

/// The command lines as mathematical values.
pub open spec fn command_models(commands: Map<u64, Arc<Vec<String>>>) -> Map<u64, Seq<String>> {
    commands.map_values(|c: Arc<Vec<String>>| c@)
}

impl View for TerminalTables {
    type V = TerminalsModel;

    open spec fn view(&self) -> TerminalsModel {
        TerminalsModel {
            live: self.live@,
            bindings: self.bindings@,
            backing_files: text_models(self.backing_files@),
            history_files: text_models(self.history_files@),
            log_files: text_models(self.log_files@),
            commands: command_models(self.commands@),
            resume_commands: self.resume_commands@,
            companions: self.companions@,
            ephemeral: self.ephemeral@,
            script_tokens: self.script_tokens@,
            explicit_titles: self.explicit_titles@,
            foreground_names: self.foreground_names@,
            tracked_agent: self.tracked_agent,
            scrollback_views: self.scrollback_views@,
            groups: self.process_groups.spec_entries(),
            next_incarnation: self.process_groups.spec_next_incarnation(),
        }
    }
}

impl TerminalsModel {
    /// No terminal at all.
    pub open spec fn none() -> TerminalsModel {
        TerminalsModel {
            live: Map::empty(),
            bindings: Map::empty(),
            backing_files: Map::empty(),
            history_files: Map::empty(),
            log_files: Map::empty(),
            commands: Map::empty(),
            resume_commands: Map::empty(),
            companions: Map::empty(),
            ephemeral: Set::empty(),
            script_tokens: Set::empty(),
            explicit_titles: Set::empty(),
            foreground_names: Map::empty(),
            tracked_agent: None,
            scrollback_views: Seq::empty(),
            groups: Seq::empty(),
            next_incarnation: 1,
        }
    }

    /// The terminal that `buffer` shows.
    pub open spec fn terminal_of(self, buffer: BufferId) -> Option<TerminalId> {
        if self.bindings.contains_key(buffer.0) {
            Some(self.bindings[buffer.0])
        } else {
            None
        }
    }
}

impl TerminalTables {
    /// No terminal at all.
    pub fn new() -> (tables: TerminalTables)
        ensures
            tables@ == TerminalsModel::none(),
    {
        let tables = TerminalTables {
            live: BTreeMap::new(),
            bindings: BTreeMap::new(),
            backing_files: BTreeMap::new(),
            history_files: BTreeMap::new(),
            log_files: BTreeMap::new(),
            commands: BTreeMap::new(),
            resume_commands: BTreeMap::new(),
            companions: BTreeMap::new(),
            ephemeral: BTreeSet::new(),
            script_tokens: BTreeSet::new(),
            explicit_titles: BTreeSet::new(),
            foreground_names: BTreeMap::new(),
            tracked_agent: None,
            scrollback_views: Vec::new(),
            process_groups: ProcessTable::new(),
        };
        proof {
            assert(tables@.commands =~= Map::<u64, Seq<String>>::empty());
            assert(text_models(tables.log_files@) =~= Map::<u64, Seq<char>>::empty());
            assert(text_models(tables.backing_files@) =~= Map::<u64, Seq<char>>::empty());
            assert(text_models(tables.history_files@) =~= Map::<u64, Seq<char>>::empty());
        }
        tables
    }

    /// The terminal that `buffer` shows.
    pub fn get_terminal_id(&self, buffer: BufferId) -> (terminal: Option<TerminalId>)
        ensures
            terminal == self@.terminal_of(buffer),
    {
        match self.bindings.get(&buffer.0) {
            Some(terminal) => Some(*terminal),
            None => None,
        }
    }
}

} // verus!
