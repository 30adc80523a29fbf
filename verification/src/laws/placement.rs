//! Where panels, terminal windows and the files of terminals go.
use std::sync::Arc;
use vstd::prelude::*;

use crate::artifacts::decide_move;
use crate::artifacts::file_relocations;
use crate::artifacts::files_of;
use crate::artifacts::moved_name;
use crate::artifacts::moves_after_cutover;
use crate::artifacts::ArtifactFile;
use crate::artifacts::ArtifactRun;
use crate::artifacts::MoveDecision;
use crate::artifacts::SavedTerminal;
use crate::authority::Authority;
use crate::authority::WorkspaceRoot;
use crate::command::PanelArgument;
use crate::command::PluginCommandContext;
use crate::command::TerminalRequest;
use crate::editor::EditorModel;
use crate::effects::Effect;
use crate::effects::EffectModel;
use crate::floating::clamp_dock_width;
use crate::floating::clamp_percent;
use crate::floating::FloatingPanel;
use crate::floating::PanelHostModel;
use crate::floating::PanelPlacement;
use crate::floating::PanelSlot;
use crate::ids::WindowId;
use crate::laws::privileges::asked;
use crate::laws::privileges::may_drive;
use crate::laws::privileges::owner;
use crate::laws::privileges::turned_down;
use crate::notice::Rejection;
use crate::terminal_window::creation_error;
use crate::terminal_window::started_in;
use crate::widgets::PanelKey;
use crate::window::StateEntry;
use crate::window::StateValue;

verus! {

/// A panel does what it is told by name: it docks, is centred, is anchored at a cell,
/// takes the focus or fills the screen. A change of where it is lays the screen out anew,
/// and a name that is not known does nothing.
pub proof fn a_panel_does_what_it_is_told(
    host: PanelHostModel,
    panel: FloatingPanel,
    op: Seq<char>,
    arg: PanelArgument,
    screen_width: u16,
)
    ensures
        ({
            let width_cols = clamp_dock_width(
                if host.dock_width is Some {
                    host.dock_width->0
                } else {
                    arg.columns
                },
                screen_width,
            );
            let docked = PanelPlacement::LeftDock { width_cols };
            &&& host.controlled(panel, "dock"@, arg, screen_width) == Some(
                (FloatingPanel { placement: docked, focused: true, ..panel }, true),
            )
            &&& host.controlled(panel, "dock_width"@, arg, screen_width) == Some(
                if panel.placement is LeftDock {
                    (FloatingPanel { placement: docked, ..panel }, true)
                } else {
                    (panel, false)
                },
            )
            &&& host.controlled(panel, "center"@, arg, screen_width) == Some(
                (
                    FloatingPanel { placement: PanelPlacement::Centered, focused: true, ..panel },
                    true,
                ),
            )
            &&& host.controlled(panel, "focus"@, arg, screen_width) == Some(
                (FloatingPanel { focused: true, ..panel }, false),
            )
            &&& host.controlled(panel, "fullscreen"@, arg, screen_width) == Some(
                (FloatingPanel { fullscreen: arg.nonzero, ..panel }, false),
            )
            &&& host.controlled(panel, "anchor"@, arg, screen_width) matches Some((moved, anew))
                && !anew && moved.focused && !moved.fullscreen && moved.placement is Anchored
            &&& op != "dock"@ && op != "dock_width"@ && op != "center"@ && op != "focus"@ && op
                != "fullscreen"@ && op != "anchor"@ ==> host.controlled(
                panel,
                op,
                arg,
                screen_width,
            ) is None
        }),
{
    reveal_strlit("dock");
    reveal_strlit("dock_width");
    reveal_strlit("center");
    reveal_strlit("anchor");
    reveal_strlit("focus");
    reveal_strlit("fullscreen");
    assert("dock"@.len() == 4 && "dock_width"@.len() == 10 && "focus"@.len() == 5);
    assert("center"@[0] == 'c' && "anchor"@[0] == 'a' && "fullscreen"@[0] == 'f');
    assert("dock_width"@[0] == 'd');
    assert("center"@.len() == 6 && "anchor"@.len() == 6 && "fullscreen"@.len() == 10);
}

/// The dock is as wide as it is asked to be, between ten columns and all but twenty of
/// the screen; a share of the screen is between one and a hundred.
pub proof fn widths_stay_within_the_screen(width: u16, screen_width: u16, percent: u8)
    ensures
        screen_width >= 30 && 10 <= width <= screen_width - 20 ==> clamp_dock_width(
            width,
            screen_width,
        ) == width,
        width < 10 ==> clamp_dock_width(width, screen_width) == 10,
        screen_width >= 30 && width > screen_width - 20 ==> clamp_dock_width(width, screen_width)
            == screen_width - 20,
        screen_width < 30 ==> clamp_dock_width(width, screen_width) == 10,
        1 <= percent <= 100 ==> clamp_percent(percent) == percent,
        percent == 0 ==> clamp_percent(percent) == 1,
        percent > 100 ==> clamp_percent(percent) == 100,
{
}

/// A panel is found in the slot that it is in, the dock before the floating one.
pub proof fn a_panel_is_found_in_its_slot(host: PanelHostModel, key: PanelKey)
    ensures
        ({
            let docked = host.dock is Some && host.dock->0.key.plugin@ == key.plugin@
                && host.dock->0.key.panel_id == key.panel_id;
            let floats = host.floating is Some && host.floating->0.key.plugin@ == key.plugin@
                && host.floating->0.key.panel_id == key.panel_id;
            &&& docked ==> host.slot_of(key) == Some(PanelSlot::Dock)
            &&& !docked && floats ==> host.slot_of(key) == Some(PanelSlot::Floating)
            &&& !docked && !floats ==> host.slot_of(key) is None
            &&& host.in_slot(PanelSlot::Dock) == host.dock
            &&& host.in_slot(PanelSlot::Floating) == host.floating
        }),
{
}

/// A window with a terminal is opened at an absolute path, for those who may have such a
/// terminal, with what it is asked for.
pub proof fn a_terminal_window_is_asked_for(
    editor: EditorModel,
    root: Arc<WorkspaceRoot>,
    label: String,
    terminal: TerminalRequest,
    activate: bool,
    initial_state: Vec<(String, StateValue)>,
    request_id: u64,
    context: PluginCommandContext,
)
    ensures
        ({
            let after = editor.terminal_window_requested(
                root,
                label,
                terminal,
                activate,
                initial_state,
                request_id,
                context,
            );
            let denied = (terminal.allow_script || terminal.companion is Some
                || terminal.selected_agent) && !may_drive(editor, context);
            &&& denied ==> after == turned_down(
                editor,
                context,
                request_id,
                Rejection::CreateWindowPrivileged,
            )
            &&& !denied && !root.absolute ==> after == turned_down(
                editor,
                context,
                request_id,
                Rejection::CreateWindowRelativeRoot { quoted: root.quoted },
            )
            &&& !denied && root.absolute ==> {
                let effect = after.outbox.last()->Plain_0;
                &&& after == asked(editor, effect)
                &&& effect matches Effect::OpenTerminalWindow {
                    owner: o,
                    request_id: r,
                    root: at,
                    label: l,
                    activate: a,
                    plugin: p,
                    initial_state: s,
                    terminal: t,
                } && o == owner(context) && r == request_id && at == root && l == label && a
                    == activate && p == context.plugin_name && s == initial_state && t.command
                    == terminal.command && t.cwd == terminal.cwd
            }
        }),
{
}

/// The terminal of a new window runs where it is asked to, and otherwise at the root of
/// the window.
pub proof fn a_terminal_runs_at_the_root_of_its_window(
    terminal: TerminalRequest,
    root: WorkspaceRoot,
)
    ensures
        terminal.cwd is Some ==> started_in(terminal, root).cwd == terminal.cwd,
        terminal.cwd is None ==> started_in(terminal, root).cwd == Some(root.path),
        started_in(terminal, root).command == terminal.command,
        started_in(terminal, root).relaunch == terminal.relaunch,
        started_in(terminal, root).allow_script == terminal.allow_script,
{
}

/// A window that is opened for a terminal has the next number and is looked at while its
/// terminal starts; the window that is left is saved where the new one is to be shown.
pub proof fn a_terminal_window_begins_empty(
    editor: EditorModel,
    root: Arc<WorkspaceRoot>,
    label: Seq<char>,
    stable_id: Seq<char>,
    authority: Authority,
    activate: bool,
    state: Seq<StateEntry>,
)
    requires
        editor.next_window_id < u64::MAX,
        editor.active_window.0 != editor.next_window_id,
    ensures
        ({
            let after = editor.terminal_window_begun(
                root,
                label,
                stable_id,
                authority,
                activate,
                state,
            );
            let id = editor.next_window_id;
            let window = after.windows[id];
            &&& after.windows.contains_key(id)
            &&& after.active_window == WindowId(id)
            &&& after.next_window_id == id + 1
            &&& window.label == label
            &&& window.root == root
            &&& window.stable_id == stable_id
            &&& window.authority == authority
            &&& window.plugin_state == state
            &&& window.documents.layout is None
            &&& activate ==> after.outbox.len() > editor.outbox.len()
                && after.outbox[editor.outbox.len() as int] == EffectModel::Plain(
                Effect::Checkpoint { window: editor.active_window },
            )
        }),
{
}

/// A window that could not be made is gone, with all that was noted of it, and the window
/// that was there before is in the foreground again.
pub proof fn an_unpublished_window_leaves_nothing(
    editor: EditorModel,
    id: WindowId,
    previous: WindowId,
)
    requires
        editor.windows.contains_key(id.0),
        previous != id,
    ensures
        ({
            let after = editor.unpublished(id, previous);
            &&& !after.windows.contains_key(id.0)
            &&& !after.remote.keepalives.contains(id.0)
            &&& !after.remote.pending_reattach.contains_key(id.0)
            &&& !after.materialize_pending.contains(id.0)
            &&& editor.active_window == id ==> after.active_window == previous
            &&& editor.active_window != id ==> after.active_window == editor.active_window
            &&& after.outbox.last() == (EffectModel::DiscardWorkspace {
                root: editor.windows[id.0].root,
                stable_id: editor.windows[id.0].stable_id,
            })
        }),
{
}

/// What could not be made is told with its own reason alone where all of it could be
/// taken back, and with more behind it where it could not.
pub proof fn a_failure_is_told_in_full(error: Seq<char>, failures: Seq<String>)
    ensures
        failures.len() == 0 ==> creation_error(error, failures) == error,
        failures.len() == 1 ==> creation_error(error, failures) == error
            + "; rollback failures: "@ + failures[0]@,
{
}

/// A file is moved where it is at the one place and not at the other; one that is moved
/// already is left, and anything else stops the move.
pub proof fn a_file_is_moved_where_that_is_safe(from_exists: bool, to_exists: bool)
    ensures
        from_exists && !to_exists ==> decide_move(from_exists, to_exists) == MoveDecision::Rename,
        !from_exists && to_exists ==> decide_move(from_exists, to_exists) == MoveDecision::InPlace,
        from_exists == to_exists ==> decide_move(from_exists, to_exists) == MoveDecision::Stuck,
{
}

/// Files are moved one after the other, forward from the first and back from the last,
/// until all are moved or one could not be.
pub proof fn files_are_moved_in_order(run: ArtifactRun)
    requires
        run.done <= run.total,
    ensures
        run.failed ==> run.spec_current() is None && run.spec_outcome() == Some(false),
        !run.failed && run.done == run.total ==> run.spec_current() is None && run.spec_outcome()
            == Some(true),
        !run.failed && run.done < run.total ==> run.spec_outcome() is None && run.spec_current()
            == Some(
            if run.forward {
                run.done
            } else {
                (run.total - 1 - run.done) as usize
            },
        ),
        run.done < run.total ==> run.advanced().done == run.done + 1 && run.advanced().failed
            == run.failed,
        run.stopped().failed && run.stopped().done == run.done,
{
}

/// A moved file keeps its name where that is free, and otherwise gets a number before its
/// extension.
pub proof fn a_moved_file_keeps_its_name_where_it_can(
    original: Seq<char>,
    stem: Seq<char>,
    extension: String,
)
    ensures
        moved_name(original, stem, Some(extension), 0) == original,
        moved_name(original, stem, None, 0) == original,
        moved_name(original, stem, Some(extension), 1) == stem + "-moved-1."@ + extension@,
        moved_name(original, stem, None, 2) == stem + "-moved-2"@,
{
    reveal_strlit("-moved-");
    reveal_strlit(".");
    reveal_strlit("-moved-1.");
    reveal_strlit("-moved-2");
    assert(moved_name(original, stem, Some(extension), 1) =~= stem + "-moved-1."@ + extension@);
    assert(moved_name(original, stem, None, 2) =~= stem + "-moved-2"@);
}

/// The files of a terminal are its backing, its history, its log and, where it has one of
/// its own, its checkpoint, in this order.
pub proof fn a_terminal_has_up_to_four_files(
    backing: String,
    history: String,
    log: String,
    saved: SavedTerminal,
)
    ensures
        ({
            let files = files_of(Some(backing), Some(history), Some(log), saved);
            let apart = saved.checkpoint_generation is Some && saved.backing_path@ != backing@;
            &&& files.len() == if apart {
                4int
            } else {
                3int
            }
            &&& files[0] == backing
            &&& files[1] == history
            &&& files[2] == log
            &&& apart ==> files[3] == saved.backing_path
        }),
        files_of(None, None, Some(log), saved)[0] == log,
{
}

/// A file that what was saved still points at is moved once the source has let go of it,
/// with its lock, which always waits for that; any other file is moved before.
pub proof fn a_saved_file_moves_after_the_cutover(file: ArtifactFile, saved: SavedTerminal)
    ensures
        ({
            let path = file.source@;
            let pointed_at = saved.log_path@ == path || (saved.history_path is Some
                && saved.history_path->0@ == path) || (saved.checkpoint_generation is Some
                && saved.backing_path@ == path);
            let moves = file_relocations(file, saved);
            &&& moves_after_cutover(saved, path) == pointed_at
            &&& moves.last().source == file.source
            &&& moves.last().destination == file.destination
            &&& moves.last().after_source_cutover == pointed_at
            &&& file.lock is None ==> moves.len() == 1
            &&& file.lock is Some ==> moves.len() == 2 && moves[0].source == (file.lock->0).0
                && moves[0].destination == (file.lock->0).1 && moves[0].after_source_cutover
        }),
{
}

} // verus!
