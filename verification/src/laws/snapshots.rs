//! What plugins read: which of two values they see, and whose.
use std::sync::Arc;
use vstd::prelude::*;

use crate::editor::EditorModel;
use crate::editor_snapshot::merged_globals;
use crate::ids::WindowId;
use crate::snapshot::GlobalState;
use crate::snapshot::SnapshotModel;
use crate::snapshot::SnapshotSources;
use crate::window_snapshot::with_missing;

verus! {

/// A value that a plugin has written survives a refresh, which may not have
/// heard of it yet, and a value that the plugin has not written is there
/// afterwards.
pub proof fn a_refresh_keeps_what_a_plugin_has_written<V>(
    present: Map<Seq<char>, V>,
    values: Seq<(String, V)>,
    key: Seq<char>,
)
    ensures
        present.contains_key(key) ==> with_missing(present, values).contains_key(key)
            && with_missing(present, values)[key] == present[key],
        forall|i: int|
            0 <= i < values.len() ==> with_missing(present, values).contains_key(
                (#[trigger] values[i]).0@,
            ),
        with_missing(present, values).contains_key(key) ==> present.contains_key(key) || exists|i: int|
            0 <= i < values.len() && (#[trigger] values[i]).0@ == key,
    decreases values.len(),
{
    if values.len() > 0 {
        let rest = values.drop_last();
        a_refresh_keeps_what_a_plugin_has_written(present, rest, key);
        let before = with_missing(present, rest);
        assert forall|i: int| 0 <= i < values.len() implies with_missing(
            present,
            values,
        ).contains_key((#[trigger] values[i]).0@) by {
            if i < rest.len() {
                assert(rest[i] == values[i]);
                assert(before.contains_key(rest[i].0@));
            }
        }
        if before.contains_key(key) && !present.contains_key(key) {
            let i = choose|i: int| 0 <= i < rest.len() && (#[trigger] rest[i]).0@ == key;
            assert(values[i].0@ == key);
        }
        if with_missing(present, values).contains_key(key) && !before.contains_key(key) {
            assert(values[values.len() - 1].0@ == key);
        }
    }
}

/// A global value that a plugin has written survives a refresh.
pub proof fn a_refresh_keeps_global_values(
    present: Map<Seq<char>, Map<Seq<char>, Arc<String>>>,
    states: Seq<GlobalState>,
    plugin: Seq<char>,
    key: Seq<char>,
)
    requires
        present.contains_key(plugin),
        present[plugin].contains_key(key),
    ensures
        merged_globals(present, states).contains_key(plugin),
        merged_globals(present, states)[plugin].contains_key(key),
        merged_globals(present, states)[plugin][key] == present[plugin][key],
    decreases states.len(),
{
    if states.len() > 0 {
        a_refresh_keeps_global_values(present, states.drop_last(), plugin, key);
        let before = merged_globals(present, states.drop_last());
        a_refresh_keeps_what_a_plugin_has_written(before[plugin], states.last().values@, key);
    }
}

/// The shared snapshot keeps the markers of every buffer that is open in some
/// window as they are, and no others, and each refresh has a number of its own.
pub proof fn markers_live_as_long_as_their_buffer(
    editor: EditorModel,
    before: SnapshotModel,
    sources: SnapshotSources,
    buffer: u64,
)
    ensures
        ({
            let after = editor.shared_refreshed(before, sources);
            &&& after.markers.contains_key(buffer) <==> before.markers.contains_key(buffer)
                && editor.is_open_anywhere(buffer)
            &&& after.markers.contains_key(buffer) ==> after.markers[buffer]
                == before.markers[buffer]
            &&& after.host_revision != before.host_revision
        }),
{
}

/// The snapshot of one invocation shows the buffers and the markers of one
/// window, and leaves the number of the shared snapshot alone.
pub proof fn a_private_snapshot_shows_one_window(
    editor: EditorModel,
    before: SnapshotModel,
    scope: Option<WindowId>,
    sources: SnapshotSources,
    buffer: u64,
)
    ensures
        ({
            let after = editor.private_refreshed(before, scope, sources);
            let open = editor.active().documents.buffers;
            &&& after.markers.contains_key(buffer) ==> open.contains_key(buffer)
            &&& after.window.buffers.contains_key(buffer) <==> open.contains_key(buffer)
            &&& after.host_revision == before.host_revision
            &&& after.editor.active_window == editor.active_window
        }),
{
}

} // verus!
