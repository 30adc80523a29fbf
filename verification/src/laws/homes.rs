//! The home of a buffer and of a terminal: what its window has of it, and no other.
use vstd::prelude::*;

use crate::documents::tab_is_other;
use crate::documents::TabTarget;
use crate::editor::EditorModel;
use crate::ids::BufferId;
use crate::ids::TerminalId;
use crate::ids::WindowId;
use crate::lists::lemma_filter_source;
use crate::terminals::TerminalsModel;
use crate::transfer::can_transfer;

verus! {

/// A buffer moves from a window that has it open to another window that is there, and
/// nothing changes where it cannot. In the target it has a tab in the split in use, and
/// in the source no split has a tab for it or remembers it. No third window changes.
pub proof fn a_moved_buffer_takes_its_tab_along(
    editor: EditorModel,
    buffer: BufferId,
    source: WindowId,
    target: WindowId,
    split: u64,
    third: u64,
)
    ensures
        ({
            let after = editor.rehomed(buffer, source, target);
            let movable = source != target && editor.windows.contains_key(source.0)
                && editor.windows.contains_key(target.0)
                && editor.windows[source.0].documents.buffers.contains_key(buffer.0);
            let from = editor.windows[source.0].documents.layout;
            let to = editor.windows[target.0].documents.layout;
            let left = after.windows[source.0].documents.layout;
            let there = after.windows[target.0].documents.layout;
            &&& !movable ==> after == editor
            &&& movable ==> {
                &&& after.windows[target.0].documents.buffers.contains_key(buffer.0)
                &&& after.windows[target.0].documents.buffers[buffer.0]
                    == editor.windows[source.0].documents.buffers[buffer.0]
                &&& !after.windows[source.0].documents.buffers.contains_key(buffer.0)
                &&& third != source.0 && third != target.0 && editor.windows.contains_key(third)
                    ==> after.windows.contains_key(third) && after.windows[third]
                    == editor.windows[third]
                &&& after.active_window == editor.active_window
                &&& after.outbox == editor.outbox
                &&& from is Some ==> left is Some
                &&& from is Some && from->0.view_states.contains_key(split) ==> {
                    let state = left->0.view_states[split];
                    &&& left->0.view_states.contains_key(split)
                    &&& !state.open_buffers.contains(TabTarget::Buffer(buffer))
                    &&& !state.focus_history.contains(TabTarget::Buffer(buffer))
                    &&& !state.keyed_states.contains_key(buffer.0)
                }
                &&& there is Some
                &&& to is None ==> there->0.panes.len() == 1 && there->0.panes[0].buffer == buffer
                &&& to is Some && to->0.view_states.contains_key(to->0.active_split.0.0)
                    ==> there->0.view_states[to->0.active_split.0.0].open_buffers.contains(
                    TabTarget::Buffer(buffer),
                )
            }
        }),
{
    let tab = TabTarget::Buffer(buffer);
    if let Some(layout) = editor.windows[source.0].documents.layout {
        if layout.view_states.contains_key(split) {
            let state = layout.view_states[split];
            lemma_tab_dropped(state.open_buffers, buffer);
            lemma_tab_dropped(state.focus_history, buffer);
        }
    }
    if let Some(layout) = editor.windows[target.0].documents.layout {
        if layout.view_states.contains_key(layout.active_split.0.0) {
            let tabs = layout.view_states[layout.active_split.0.0].open_buffers;
            assert(tabs.push(tab)[tabs.len() as int] == tab);
            assert(tabs.push(tab).contains(tab));
        }
    }
}

proof fn lemma_tab_dropped(tabs: Seq<TabTarget>, buffer: BufferId)
    ensures
        !tabs.filter(tab_is_other(buffer)).contains(TabTarget::Buffer(buffer)),
{
    let left = tabs.filter(tab_is_other(buffer));
    if left.contains(TabTarget::Buffer(buffer)) {
        let i = left.index_of(TabTarget::Buffer(buffer));
        let j = lemma_filter_source(tabs, tab_is_other(buffer), i);
    }
}

/// A terminal can move from a window where it runs and a buffer shows it to another
/// window that is there.
pub proof fn a_terminal_moves_where_it_runs(
    editor: EditorModel,
    source: WindowId,
    target: WindowId,
    buffer: BufferId,
    terminal: TerminalId,
)
    ensures
        can_transfer(editor, source, target, buffer, terminal) <==> {
            &&& source != target
            &&& editor.windows.contains_key(source.0)
            &&& editor.windows.contains_key(target.0)
            &&& editor.windows[source.0].terminals.bindings.contains_key(buffer.0)
            &&& editor.windows[source.0].terminals.bindings[buffer.0] == terminal
            &&& editor.windows[source.0].terminals.live.contains_key(terminal.0)
        },
{
}

/// A window that lets a terminal go has nothing of it left, and everything else as it was.
pub proof fn a_released_terminal_leaves_nothing(
    tables: TerminalsModel,
    buffer: BufferId,
    terminal: TerminalId,
    other: u64,
)
    ensures
        ({
            let after = tables.released(buffer, terminal);
            let k = terminal.0;
            &&& !after.live.contains_key(k)
            &&& !after.bindings.contains_key(buffer.0)
            &&& !after.backing_files.contains_key(k)
            &&& !after.history_files.contains_key(k)
            &&& !after.log_files.contains_key(k)
            &&& !after.commands.contains_key(k)
            &&& !after.resume_commands.contains_key(k)
            &&& !after.ephemeral.contains(k)
            &&& !after.explicit_titles.contains(buffer.0)
            &&& !after.foreground_names.contains_key(buffer.0)
            &&& after.tracked_agent != Some(terminal)
            &&& other != k && tables.live.contains_key(other) ==> after.live.contains_key(other)
                && after.live[other] == tables.live[other]
            &&& other != k && tables.commands.contains_key(other) ==> after.commands.contains_key(
                other,
            ) && after.commands[other] == tables.commands[other]
            &&& other != buffer.0 && tables.bindings.contains_key(other)
                ==> after.bindings.contains_key(other) && after.bindings[other]
                == tables.bindings[other]
        }),
{
}

/// A window that takes a terminal in has everything of it that the other window had,
/// under the number that it has there.
pub proof fn a_received_terminal_brings_everything(
    from: TerminalsModel,
    to: TerminalsModel,
    buffer: BufferId,
    terminal: TerminalId,
    new_terminal: TerminalId,
)
    requires
        from.live.contains_key(terminal.0),
    ensures
        ({
            let after = to.received(buffer, new_terminal, from.baggage(buffer, terminal));
            let (k, n) = (terminal.0, new_terminal.0);
            &&& after.live.contains_key(n) && after.live[n] == from.live[k]
            &&& after.bindings.contains_key(buffer.0) && after.bindings[buffer.0] == new_terminal
            &&& from.backing_files.contains_key(k) ==> after.backing_files.contains_key(n)
                && after.backing_files[n] == from.backing_files[k]
            &&& from.history_files.contains_key(k) ==> after.history_files.contains_key(n)
                && after.history_files[n] == from.history_files[k]
            &&& from.log_files.contains_key(k) ==> after.log_files.contains_key(n)
                && after.log_files[n] == from.log_files[k]
            &&& from.commands.contains_key(k) ==> after.commands.contains_key(n)
                && after.commands[n] == from.commands[k]
            &&& from.resume_commands.contains_key(k) ==> after.resume_commands.contains_key(n)
                && after.resume_commands[n] == from.resume_commands[k]
            &&& from.ephemeral.contains(k) ==> after.ephemeral.contains(n)
            &&& from.explicit_titles.contains(buffer.0) ==> after.explicit_titles.contains(
                buffer.0,
            )
            &&& from.foreground_names.contains_key(buffer.0) ==> after.foreground_names.contains_key(
                buffer.0,
            ) && after.foreground_names[buffer.0] == from.foreground_names[buffer.0]
            &&& from.tracked_agent == Some(terminal) ==> after.tracked_agent == Some(new_terminal)
            &&& from.tracked_agent != Some(terminal) ==> after.tracked_agent == to.tracked_agent
        }),
{
}

} // verus!
