//! Windows: what showing, opening and closing one leaves alone.
use std::sync::Arc;
use vstd::prelude::*;

use crate::authority::AuthoritySpec;
use crate::authority::RemoteAgentSpec;
use crate::authority::WorkspaceRoot;
use crate::dormant::promotion_failure;
use crate::editor::EditorModel;
use crate::effects::HookEvent;
use crate::effects::RemoteAttachOwner;
use crate::effects::RemoteInitialState;
use crate::ids::WindowId;
use crate::lists::is_increasing;
use crate::lists::lemma_first_index_found;
use crate::lists::lemma_sorted_exists;
use crate::lists::lemma_sorted_members;
use crate::terminals::TerminalsModel;
use crate::window::Window;
use crate::window::WindowModel;
use crate::windows::at_root;
use crate::windows::cycle_of;
use crate::windows::cycle_position;
use crate::windows::cycle_target;
use crate::windows::is_window;
use crate::windows::WindowSeed;

verus! {

/// Whether two editors have the same windows, the same order of them, and the
/// same one in the foreground.
pub open spec fn same_stage(a: EditorModel, b: EditorModel) -> bool {
    &&& a.windows.dom() == b.windows.dom()
    &&& a.window_cycle_order == b.window_cycle_order
    &&& a.active_window == b.active_window
    &&& a.next_window_id == b.next_window_id
}

proof fn lemma_pointing_keeps_windows(editor: EditorModel, id: WindowId)
    ensures
        same_stage(
            editor.pointing_at(id),
            EditorModel { active_window: id, ..editor },
        ),
{
    assert(editor.pointing_at(id).windows.dom() =~= editor.windows.dom());
}

proof fn lemma_announcing_keeps_stage(editor: EditorModel, id: WindowId, event: HookEvent)
    ensures
        same_stage(editor.announcing(id, event), editor),
{
    lemma_pointing_keeps_windows(editor, id);
    lemma_pointing_keeps_windows(editor.pointing_at(id), editor.active_window);
}

proof fn lemma_connecting_keeps_stage(
    editor: EditorModel,
    spec: Arc<RemoteAgentSpec>,
    owner: RemoteAttachOwner,
    activate: bool,
    initial_state: Option<RemoteInitialState>,
)
    ensures
        same_stage(editor.connecting(spec, owner, activate, initial_state), editor),
{
    reveal(EditorModel::connecting);
    let after = editor.connecting(spec, owner, activate, initial_state);
    assert(after.windows.dom() =~= editor.windows.dom());
}

proof fn lemma_woken_keeps_stage(editor: EditorModel, id: WindowId)
    ensures
        same_stage(editor.woken(id), editor),
{
    if editor.has(id) {
        if let AuthoritySpec::RemoteAgent(spec) = editor.window(id).authority_spec {
            let cleared = editor.with_window(id, editor.window(id).with_reconnect_error(None));
            lemma_connecting_keeps_stage(
                cleared,
                spec,
                RemoteAttachOwner::Reconnect { window: id },
                true,
                None,
            );
            assert(cleared.windows.dom() =~= editor.windows.dom());
        }
    }
    assert(editor.woken(id).windows.dom() =~= editor.windows.dom());
}

/// Showing a window opens and closes none, and puts that window into the
/// foreground where it is there. Showing one that is not there does nothing.
pub proof fn showing_a_window_keeps_the_windows(editor: EditorModel, id: WindowId)
    ensures
        same_stage(
            editor.showing(id),
            EditorModel {
                active_window: if editor.has(id) {
                    id
                } else {
                    editor.active_window
                },
                ..editor
            },
        ),
        !editor.has(id) ==> editor.showing(id) == editor,
{
    if editor.has(id) && editor.active_window != id {
        let checkpointed = editor.emitting(
            crate::effects::Effect::Checkpoint { window: editor.active_window },
        );
        let cleared = checkpointed.panel_mode_cleared(editor.active_window);
        assert(cleared.windows.dom() =~= editor.windows.dom());
        let left = editor.leaving_for(id);
        lemma_pointing_keeps_windows(
            cleared.emitting(crate::effects::Effect::Materialize { window: id }).emitting(
                crate::effects::Effect::EnsureLayout { window: id },
            ),
            id,
        );
        assert(left.windows.dom() == editor.windows.dom());
        let forgotten = left.clicks_forgotten(id).emitting(
            crate::effects::Effect::AdoptAuthority { previous_label: editor.authority_label() },
        );
        assert(forgotten.windows.dom() =~= left.windows.dom());
        lemma_woken_keeps_stage(forgotten, id);
        lemma_announcing_keeps_stage(
            forgotten.woken(id).emitting(
                crate::effects::Effect::RefreshSnapshot {
                    target: crate::effects::SnapshotTarget::Shared,
                    window: id,
                    scope: None,
                },
            ),
            id,
            HookEvent::ActiveWindowChanged { previous: editor.active_window },
        );
    }
}

/// Showing the window that is shown does nothing.
pub proof fn showing_twice_is_showing_once(editor: EditorModel, id: WindowId)
    ensures
        editor.showing(id).showing(id) == editor.showing(id),
{
    showing_a_window_keeps_the_windows(editor, id);
}

proof fn lemma_same_stage_same_cycle(a: EditorModel, b: EditorModel)
    requires
        a.windows.dom() == b.windows.dom(),
        a.window_cycle_order == b.window_cycle_order,
    ensures
        cycle_of(a) == cycle_of(b),
{
    assert forall|id: WindowId| a.has(id) == b.has(id) by {
        assert(a.windows.dom().contains(id.0) == b.windows.dom().contains(id.0));
    }
    assert((|id: WindowId| a.has(id)) =~= (|id: WindowId| b.has(id)));
    assert((|k: u64| a.windows.contains_key(k)) =~= (|k: u64| b.windows.contains_key(k))) by {
        assert forall|k: u64| a.windows.contains_key(k) == b.windows.contains_key(k) by {
            assert(a.windows.dom().contains(k) == b.windows.dom().contains(k));
        }
    }
}

proof fn lemma_position(cycle: Seq<WindowId>, at: int)
    requires
        0 <= at < cycle.len(),
        cycle.no_duplicates(),
    ensures
        cycle_position(cycle, cycle[at]) == at,
{
    lemma_first_index_found(cycle, is_window(cycle[at]), at);
}

proof fn lemma_step_back(at: int, len: int, step: int)
    requires
        0 <= at < len,
        step == 1 || step == -1,
    ensures
        0 <= (at + step) % len < len,
        ((at + step) % len - step) % len == at,
{
    if at + step < 0 {
        assert((at + step) % len == len - 1) by (nonlinear_arith)
            requires
                at + step == -1,
                len > 0,
        ;
        assert((len - 1 + 1) % len == 0) by (nonlinear_arith)
            requires
                len > 0,
        ;
    } else if at + step >= len {
        assert(at + step == len);
        assert((at + step) % len == 0) by (nonlinear_arith)
            requires
                at + step == len,
                len > 0,
        ;
        assert((0 - 1) % len == len - 1) by (nonlinear_arith)
            requires
                len > 0,
        ;
    } else {
        assert((at + step) % len == at + step) by (nonlinear_arith)
            requires
                0 <= at + step < len,
        ;
        assert(at % len == at) by (nonlinear_arith)
            requires
                0 <= at < len,
        ;
    }
}

/// Next and previous never lead to a window that is closed.
pub proof fn the_cycle_holds_only_open_windows(editor: EditorModel, i: int)
    requires
        0 <= i < cycle_of(editor).len(),
        editor.windows.dom().finite(),
    ensures
        editor.has(cycle_of(editor)[i]),
{
    let kept = match editor.window_cycle_order {
        Some(order) => order.filter(|id: WindowId| editor.has(id)),
        None => Seq::empty(),
    };
    if kept.len() > 0 {
        editor.window_cycle_order->0.lemma_filter_pred(|id: WindowId| editor.has(id), i);
    } else {
        let keys = lemma_sorted_exists(editor.windows.dom());
        lemma_sorted_members(keys, |k: u64| editor.windows.contains_key(k));
        assert(keys.contains(keys[i]));
        assert(editor.windows.dom().contains(keys[i]));
    }
}

/// Previous undoes next, and next undoes previous, where the active window is
/// among those that they walk and each of them comes up once.
pub proof fn next_and_previous_undo_each_other(editor: EditorModel, step: int)
    requires
        step == 1 || step == -1,
        cycle_of(editor).no_duplicates(),
        cycle_of(editor).contains(editor.active_window),
        cycle_of(editor).len() > 1,
        editor.windows.dom().finite(),
    ensures
        cycle_target(editor, step) matches Some(id) && cycle_target(editor.showing(id), -step)
            == Some(editor.active_window),
{
    let cycle = cycle_of(editor);
    let at = cycle.index_of(editor.active_window);
    lemma_position(cycle, at);
    lemma_step_back(at, cycle.len() as int, step);
    let next = (at + step) % cycle.len() as int;
    let id = cycle_target(editor, step)->0;
    assert(id == cycle[next]);
    the_cycle_holds_only_open_windows(editor, next);
    showing_a_window_keeps_the_windows(editor, id);
    lemma_same_stage_same_cycle(editor.showing(id), editor);
    lemma_position(cycle, next);
}

/// The walk that no plugin has ordered visits the windows that are there, each
/// of them once.
pub proof fn the_plain_cycle_is_every_window_once(editor: EditorModel)
    requires
        editor.window_cycle_order is None,
        editor.windows.dom().finite(),
    ensures
        cycle_of(editor).no_duplicates(),
        forall|id: WindowId| cycle_of(editor).contains(id) <==> editor.has(id),
{
    let keys = lemma_sorted_exists(editor.windows.dom());
    lemma_sorted_members(keys, |k: u64| editor.windows.contains_key(k));
    let cycle = cycle_of(editor);
    assert(cycle =~= keys.map_values(|k: u64| WindowId(k)));
    assert forall|id: WindowId| cycle.contains(id) <==> editor.has(id) by {
        if cycle.contains(id) {
            let i = cycle.index_of(id);
            assert(keys.contains(keys[i]));
        }
        if editor.has(id) {
            assert(keys.contains(id.0));
            let i = keys.index_of(id.0);
            assert(cycle[i] == id);
        }
    }
    assert forall|i: int, j: int| 0 <= i < cycle.len() && 0 <= j < cycle.len() && i
        != j implies cycle[i] != cycle[j] by {
        if i < j {
            assert(keys[i] < keys[j]);
        } else {
            assert(keys[j] < keys[i]);
        }
    }
}

/// The window in the foreground is never closed, and there is always a window
/// left. Closing one closes no other.
pub proof fn closing_spares_all_other_windows(editor: EditorModel, id: WindowId, other: WindowId)
    requires
        editor.has_active(),
        other != id || id == editor.active_window,
    ensures
        editor.closing(id).active_window == editor.active_window,
        editor.closing(id).has_active(),
        editor.has(other) ==> editor.closing(id).has(other),
        id == editor.active_window && !(editor.dormant_remote.contains_key(id.0) && !editor.has(id))
            ==> editor.closing(id) == editor,
{
    lemma_pointing_keeps_windows(editor, id);
    lemma_pointing_keeps_windows(editor.pointing_at(id), editor.active_window);
    assert(editor.windows.dom().contains(editor.active_window.0));
    assert(editor.has(other) ==> editor.windows.dom().contains(other.0));
    let viewed = if editor.has(id) {
        editor.visiting(id)
    } else {
        editor
    };
    assert(viewed.windows.dom() == editor.windows.dom());
    assert(editor.has(other) ==> viewed.windows.dom().contains(other.0));
    assert(viewed.windows.dom().contains(editor.active_window.0));
}

/// A window that may be closed is gone once it was closed.
pub proof fn a_closed_window_is_gone(editor: EditorModel, id: WindowId)
    requires
        editor.may_close(id),
    ensures
        !editor.closing(id).has(id),
        !editor.closing(id).dormant_remote.contains_key(id.0),
{
}

/// Closing a window gives up the connections that are made for it, and no
/// others.
pub proof fn closing_gives_up_only_its_own_connections(editor: EditorModel, id: WindowId, attempt: u64)
    requires
        editor.remote.attempts.contains_key(attempt),
    ensures
        editor.attaches_cancelled(id).remote.attempts.contains_key(attempt) <==>
            editor.remote.attempts[attempt].spec_window() != id,
        editor.remote.attempts[attempt].spec_window() != id
            ==> editor.attaches_cancelled(id).remote.attempts[attempt]
            == editor.remote.attempts[attempt],
{
}

/// A new window gets a number that no window had, and the others stay.
pub proof fn a_new_window_is_another_one(
    editor: EditorModel,
    root: Arc<WorkspaceRoot>,
    label: Seq<char>,
    seed: WindowSeed,
)
    requires
        editor.next_window_id < u64::MAX,
        forall|k: u64| #[trigger] editor.windows.contains_key(k) ==> k < editor.next_window_id,
    ensures
        ({
            let after = editor.opening(root, label, seed);
            &&& !editor.windows.contains_key(editor.next_window_id)
            &&& after.windows.dom() == editor.windows.dom().insert(editor.next_window_id)
            &&& forall|k: u64| #[trigger]
                after.windows.contains_key(k) ==> k < after.next_window_id
            &&& after.active_window == editor.active_window
        }),
{
    let id = WindowId(editor.next_window_id);
    let after = editor.opening(root, label, seed);
    let window = WindowModel::fresh(
        id,
        label,
        root,
        seed.stable_id@,
        seed.authority,
        editor.config.terminal_width,
        editor.config.terminal_height,
    ).seeded_with(seed.scratch);
    let made = EditorModel {
        next_window_id: (editor.next_window_id + 1) as u64,
        ..editor.with_window(id, window)
    };
    lemma_announcing_keeps_stage(made, id, HookEvent::WindowCreated);
    assert(made.windows.dom() =~= editor.windows.dom().insert(editor.next_window_id));
    assert forall|k: u64| #[trigger] after.windows.contains_key(k) implies k
        < after.next_window_id by {
        assert(after.windows.dom().contains(k));
        if k != editor.next_window_id {
            assert(editor.windows.dom().contains(k));
            assert(editor.windows.contains_key(k));
        }
    }
}

/// What stays of a window when it is looked at: everything but gestures.
proof fn lemma_announcing_keeps_windows(editor: EditorModel, id: WindowId, event: HookEvent, k: u64)
    requires
        editor.windows.contains_key(k),
    ensures
        ({
            let after = editor.announcing(id, event).windows;
            &&& after.contains_key(k)
            &&& after[k].root == editor.windows[k].root
            &&& after[k].label == editor.windows[k].label
            &&& after[k].documents == editor.windows[k].documents
        }),
{
}

/// Asking for a window at a directory that has one opens none: it gives the
/// first one that is there, with the label that it has. Otherwise the window has
/// the next number, and shows a buffer. It never takes the foreground, and asking
/// once more for the same directory gives a window there and opens none.
pub proof fn a_directory_gets_one_window(
    editor: EditorModel,
    root: Arc<WorkspaceRoot>,
    label: Seq<char>,
    seed: WindowSeed,
    id: WindowId,
    after: EditorModel,
    second_root: Arc<WorkspaceRoot>,
    second_label: Seq<char>,
    second_seed: WindowSeed,
    second: WindowId,
    last: EditorModel,
)
    requires
        editor.lacks_root(root.canonical@) ==> editor.next_window_id < u64::MAX,
        editor.is_opened_at(root, label, seed, id, after),
        second_root.canonical@ == root.canonical@,
        after.is_opened_at(second_root, second_label, second_seed, second, last),
    ensures
        after.active_window == editor.active_window,
        after.has(id),
        at_root(after.window(id), root.canonical@),
        !editor.lacks_root(root.canonical@) ==> after == editor,
        editor.lacks_root(root.canonical@) ==> {
            &&& id == WindowId(editor.next_window_id)
            &&& after.next_window_id == editor.next_window_id + 1
            &&& after.window(id).label == label
            &&& after.window(id).documents.layout is Some
            &&& after.window(id).documents.buffers.contains_key(seed.scratch.buffer.0)
        },
        last == after,
        last.has(second),
        at_root(last.window(second), root.canonical@),
{
    if editor.lacks_root(root.canonical@) {
        let window = WindowModel::fresh(
            id,
            label,
            root,
            seed.stable_id@,
            seed.authority,
            editor.config.terminal_width,
            editor.config.terminal_height,
        ).seeded_with(seed.scratch);
        let made = EditorModel {
            next_window_id: (editor.next_window_id + 1) as u64,
            ..editor.with_window(id, window)
        };
        lemma_announcing_keeps_stage(made, id, HookEvent::WindowCreated);
        lemma_announcing_keeps_windows(made, id, HookEvent::WindowCreated, id.0);
    }
    assert(after.windows.contains_key(id.0) && at_root(after.windows[id.0], root.canonical@));
    assert(!after.lacks_root(second_root.canonical@));
}

/// The sessions that plugins see are listed by their numbers, each once.
pub proof fn sessions_are_listed_once(
    editor: EditorModel,
    scope: Option<WindowId>,
    spellings: Map<Seq<char>, String>,
)
    requires
        editor.windows.dom().finite(),
        editor.dormant_remote.dom().finite(),
    ensures
        ({
            let infos = editor.session_infos(editor.session_ids(), scope, spellings);
            &&& forall|i: int, j: int|
                0 <= i < j < infos.len() ==> (#[trigger] infos[i]).id.0 < (
                #[trigger] infos[j]).id.0
            &&& forall|i: int|
                0 <= i < infos.len() ==> editor.windows.contains_key(
                    (#[trigger] infos[i]).id.0,
                ) || editor.dormant_remote.contains_key(infos[i].id.0)
        }),
{
    let either = |k: u64| editor.windows.contains_key(k) || editor.dormant_remote.contains_key(k);
    let keys = lemma_sorted_exists(editor.windows.dom().union(editor.dormant_remote.dom()));
    lemma_sorted_members(keys, either);
    lemma_sessions_listed_once(editor, keys, scope, spellings);
    let infos = editor.session_infos(editor.session_ids(), scope, spellings);
    assert forall|i: int| 0 <= i < infos.len() implies editor.windows.contains_key(
        (#[trigger] infos[i]).id.0,
    ) || editor.dormant_remote.contains_key(infos[i].id.0) by {
        assert(keys.contains(infos[i].id.0));
    }
}

proof fn lemma_sessions_listed_once(
    editor: EditorModel,
    ids: Seq<u64>,
    scope: Option<WindowId>,
    spellings: Map<Seq<char>, String>,
)
    requires
        is_increasing(ids),
    ensures
        forall|i: int, j: int|
            0 <= i < j < editor.session_infos(ids, scope, spellings).len() ==> (
            #[trigger] editor.session_infos(ids, scope, spellings)[i]).id.0 < (
            #[trigger] editor.session_infos(ids, scope, spellings)[j]).id.0,
        forall|i: int|
            0 <= i < editor.session_infos(ids, scope, spellings).len() ==> ids.contains(
                (#[trigger] editor.session_infos(ids, scope, spellings)[i]).id.0,
            ),
    decreases ids.len(),
{
    if ids.len() > 0 {
        let rest = ids.drop_last();
        lemma_sessions_listed_once(editor, rest, scope, spellings);
        let before = editor.session_infos(rest, scope, spellings);
        assert forall|i: int| 0 <= i < before.len() implies (#[trigger] before[i]).id.0
            < ids.last() && ids.contains(before[i].id.0) by {
            assert(rest.contains(before[i].id.0));
            let j = rest.index_of(before[i].id.0);
            assert(ids[j] == before[i].id.0);
        }
        assert(ids[ids.len() - 1] == ids.last());
    }
}

/// A snapshot that is scoped to a window shows no other session.
pub proof fn a_scoped_snapshot_shows_one_session(
    editor: EditorModel,
    ids: Seq<u64>,
    scope: WindowId,
    spellings: Map<Seq<char>, String>,
    i: int,
)
    requires
        0 <= i < editor.session_infos(ids, Some(scope), spellings).len(),
    ensures
        editor.session_infos(ids, Some(scope), spellings)[i].id == scope,
    decreases ids.len(),
{
    if ids.len() > 0 && i < editor.session_infos(ids.drop_last(), Some(scope), spellings).len() {
        a_scoped_snapshot_shows_one_session(editor, ids.drop_last(), scope, spellings, i);
    }
}

/// The description of a dormant session stays in force until what was saved under
/// its identity has been read: where nothing is found there, or it cannot be read,
/// the session stays dormant and holds no connection.
pub proof fn a_session_stays_dormant_until_it_is_restored(
    editor: EditorModel,
    id: WindowId,
    loaded: Result<Option<Window>, String>,
)
    requires
        editor.dormant_remote.contains_key(id.0),
        loaded is Err || (loaded->Ok_0 is None && editor.dormant_remote[id.0].has_identity()),
    ensures
        promotion_failure(editor.dormant_remote[id.0], true, loaded) matches Some(reason) && {
            let after = editor.failure_shown(id, reason);
            &&& after.dormant_remote == editor.dormant_remote
            &&& after.remote == editor.remote
            &&& after.has(id) == editor.has(id)
            &&& loaded is Ok ==> reason.wording() == "workspace "@
                + editor.dormant_remote[id.0].stable_id->0@ + " was not found"@
        },
{
}

/// A dormant session that becomes a window never takes the foreground, and no
/// other window changes for it.
pub proof fn a_promoted_session_does_not_steal_the_foreground(
    editor: EditorModel,
    id: WindowId,
    window: WindowModel,
    previous_label: String,
    other: WindowId,
)
    requires
        other != id,
    ensures
        ({
            let after = editor.connected(id, window).refreshed_after_promotion(
                id,
                previous_label,
            );
            &&& after.active_window == editor.active_window
            &&& after.has(id)
            &&& after.has(other) == editor.has(other)
            &&& editor.has(other) ==> after.window(other) == editor.window(other)
        }),
{
}

/// A window that is replaced keeps its number and its identity, and nothing of
/// its terminals, its plugins or its buffers.
pub proof fn a_replaced_window_keeps_only_its_identity(
    editor: EditorModel,
    id: WindowId,
    root: Arc<WorkspaceRoot>,
    label: Option<String>,
    seed: WindowSeed,
    spec: AuthoritySpec,
)
    requires
        editor.has(id),
    ensures
        ({
            let after = editor.window_replaced(id, root, label, seed, spec);
            let window = after.window(id);
            &&& after.has(id)
            &&& after.active_window == editor.active_window
            &&& window.id == id
            &&& window.root == root
            &&& window.stable_id == editor.window(id).stable_id
            &&& window.authority_spec == spec
            &&& window.terminals == TerminalsModel::none()
            &&& window.plugin_state.len() == 0
            &&& forall|k: u64| #[trigger]
                window.documents.buffers.contains_key(k) ==> k == seed.scratch.buffer.0
        }),
{
}

} // verus!
