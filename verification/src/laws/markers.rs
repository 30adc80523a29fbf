//! Markers: where the text that a plugin marked is after an edit.
use vstd::prelude::*;

use crate::editor::EditorModel;
use crate::ids::BufferId;
use crate::markers::markers_fit;
use crate::markers::net_edit;
use crate::snapshot::Marker;

verus! {

/// The marker `id` of a buffer, as plugins see it.
pub open spec fn marker_in(editor: EditorModel, buffer: BufferId, id: u64) -> Option<Marker> {
    match editor.shared_snapshot {
        Some(shared) => if shared.markers.contains_key(buffer.0)
            && shared.markers[buffer.0].contains_key(id) {
            Some(shared.markers[buffer.0][id])
        } else {
            None
        },
        None => None,
    }
}

/// An insertion moves every end of a marker that lies behind it, and no other. Where
/// it is right at an end, the marker does not grow.
pub proof fn an_insertion_moves_what_is_behind_it(
    editor: EditorModel,
    buffer: BufferId,
    pos: u64,
    inserted: u64,
    id: u64,
)
    requires
        marker_in(editor, buffer, id) is Some,
        marker_in(editor, buffer, id)->0.start + inserted <= u64::MAX,
        marker_in(editor, buffer, id)->0.end + inserted <= u64::MAX,
    ensures
        ({
            let before = marker_in(editor, buffer, id)->0;
            let after = marker_in(
                editor.markers_shifted(buffer, net_edit(pos, 0, inserted)),
                buffer,
                id,
            );
            &&& after is Some
            &&& before.start < pos ==> after->0.start == before.start
            &&& pos <= before.start ==> after->0.start == before.start + inserted
            &&& before.end <= pos ==> after->0.end == before.end
            &&& pos < before.end ==> after->0.end == before.end + inserted
        }),
{
}

/// A removal moves every end of a marker that lies behind what is removed, leaves
/// those before it, and draws those within it to its start.
pub proof fn a_removal_moves_what_is_behind_it(
    editor: EditorModel,
    buffer: BufferId,
    pos: u64,
    removed: u64,
    id: u64,
)
    requires
        marker_in(editor, buffer, id) is Some,
    ensures
        ({
            let before = marker_in(editor, buffer, id)->0;
            let after = marker_in(
                editor.markers_shifted(buffer, net_edit(pos, removed, 0)),
                buffer,
                id,
            );
            &&& after is Some
            &&& before.start <= pos ==> after->0.start == before.start
            &&& pos + removed <= before.start ==> after->0.start == before.start - removed
            &&& pos < before.start < pos + removed ==> after->0.start == pos
            &&& before.end <= pos ==> after->0.end == before.end
            &&& pos + removed <= before.end ==> after->0.end == before.end - removed
            &&& pos < before.end < pos + removed ==> after->0.end == pos
        }),
{
}

/// A replacement moves what is behind it by the difference of the two lengths, as if
/// only that much was inserted or removed where it begins.
pub proof fn a_replacement_counts_by_its_net_length(
    editor: EditorModel,
    buffer: BufferId,
    pos: u64,
    removed: u64,
    inserted: u64,
)
    requires
        removed > 0,
        inserted > 0,
    ensures
        inserted >= removed ==> editor.markers_shifted(buffer, net_edit(pos, removed, inserted))
            == editor.markers_shifted(buffer, net_edit(pos, 0, (inserted - removed) as u64)),
        inserted <= removed ==> editor.markers_shifted(buffer, net_edit(pos, removed, inserted))
            == editor.markers_shifted(buffer, net_edit(pos, (removed - inserted) as u64, 0)),
{
}

/// An edit within a marker moves its end with the text and leaves its start.
pub proof fn an_edit_within_a_marker_moves_its_end(
    editor: EditorModel,
    buffer: BufferId,
    pos: u64,
    removed: u64,
    inserted: u64,
    id: u64,
)
    requires
        marker_in(editor, buffer, id) matches Some(marker) && marker.start < pos < marker.end && pos
            + removed <= marker.end && marker.end + inserted <= u64::MAX,
    ensures
        ({
            let before = marker_in(editor, buffer, id)->0;
            let after = marker_in(
                editor.markers_shifted(buffer, net_edit(pos, removed, inserted)),
                buffer,
                id,
            );
            &&& after is Some
            &&& after->0.start == before.start
            &&& after->0.end == before.end - removed + inserted
        }),
{
}

/// A marker that ends before an edit stays where it is, and one that begins behind
/// all that is removed moves as a whole.
pub proof fn an_edit_beside_a_marker_keeps_its_length(
    editor: EditorModel,
    buffer: BufferId,
    pos: u64,
    removed: u64,
    inserted: u64,
    id: u64,
)
    requires
        marker_in(editor, buffer, id) matches Some(marker) && marker.start <= marker.end && marker.end
            + inserted <= u64::MAX,
    ensures
        ({
            let before = marker_in(editor, buffer, id)->0;
            let after = marker_in(
                editor.markers_shifted(buffer, net_edit(pos, removed, inserted)),
                buffer,
                id,
            );
            &&& after is Some
            &&& before.start < pos && before.end <= pos ==> after->0 == before
            &&& pos + removed <= before.start && pos < before.start ==> {
                &&& after->0.start == before.start - removed + inserted
                &&& after->0.end == before.end - removed + inserted
            }
        }),
{
}

/// An edit of a buffer moves the markers of that buffer only, makes none and drops
/// none, and changes nothing else.
pub proof fn an_edit_moves_only_the_markers_of_its_buffer(
    editor: EditorModel,
    buffer: BufferId,
    pos: u64,
    removed: u64,
    inserted: u64,
    other: BufferId,
    id: u64,
)
    requires
        editor.shared_snapshot matches Some(shared) ==> markers_fit(
            shared.markers,
            buffer,
            net_edit(pos, removed, inserted),
        ),
    ensures
        ({
            let after = editor.markers_shifted(buffer, net_edit(pos, removed, inserted));
            &&& marker_in(after, other, id) is Some <==> marker_in(editor, other, id) is Some
            &&& other != buffer ==> marker_in(after, other, id) == marker_in(editor, other, id)
            &&& after == (EditorModel { shared_snapshot: after.shared_snapshot, ..editor })
            &&& after.shared_snapshot is Some <==> editor.shared_snapshot is Some
            &&& editor.shared_snapshot matches Some(shared) ==> {
                &&& after.shared_snapshot->0.window == shared.window
                &&& after.shared_snapshot->0.editor == shared.editor
                &&& after.shared_snapshot->0.keybinding_labels == shared.keybinding_labels
                &&& after.shared_snapshot->0.host_revision == shared.host_revision
            }
        }),
{
}

/// Where no end of a marker grows past what a machine number can hold, every edit of
/// a buffer can be followed.
pub proof fn markers_follow_wherever_their_ends_fit(
    markers: Map<u64, Map<u64, Marker>>,
    buffer: BufferId,
    pos: u64,
    removed: u64,
    inserted: u64,
)
    requires
        forall|id: u64|
            markers.contains_key(buffer.0) && #[trigger] markers[buffer.0].contains_key(id) ==> {
                &&& markers[buffer.0][id].start + inserted <= u64::MAX
                &&& markers[buffer.0][id].end + inserted <= u64::MAX
            },
    ensures
        markers_fit(markers, buffer, net_edit(pos, removed, inserted)),
{
}

} // verus!
