//! How the markers of plugins follow an edit.
use std::collections::BTreeMap;
use vstd::prelude::*;

use crate::editor::Editor;
use crate::editor::EditorModel;
use crate::ids::BufferId;
use crate::lists::is_sorted_domain;
use crate::lists::sorted_keys;
use crate::snapshot::Marker;
use crate::snapshot::SnapshotModel;

verus! {

/// An edit reduced to its net effect at its place: text is removed or
/// inserted, but not both.
#[derive(Clone, Copy, Debug, PartialEq, Eq, Structural)]
pub struct NetEdit {
    pub pos: u64,
    pub removed: u64,
    pub inserted: u64,
}

/// The net effect of `removed` bytes that become `inserted` ones.
pub open spec fn net_edit(pos: u64, removed: u64, inserted: u64) -> NetEdit {
    if removed > 0 && inserted > 0 {
        if inserted >= removed {
            NetEdit { pos, removed: 0, inserted: (inserted - removed) as u64 }
        } else {
            NetEdit { pos, removed: (removed - inserted) as u64, inserted: 0 }
        }
    } else {
        NetEdit { pos, removed, inserted }
    }
}

impl NetEdit {
    /// Where the offset `x` is after a removal: offsets within what is removed
    /// fall together at its start.
    pub open spec fn removed_at(self, x: u64) -> int {
        if x <= self.pos {
            x as int
        } else if x >= self.pos + self.removed {
            x - self.removed
        } else {
            self.pos as int
        }
    }

    /// The start of a marker after the edit. Text that is inserted right at a
    /// start goes before the marker.
    pub open spec fn start_at(self, x: u64) -> int {
        if self.removed > 0 {
            self.removed_at(x)
        } else if x >= self.pos {
            x + self.inserted
        } else {
            x as int
        }
    }

    /// The end of a marker after the edit. Text that is inserted right at an
    /// end goes behind the marker.
    pub open spec fn end_at(self, x: u64) -> int {
        if self.removed > 0 {
            self.removed_at(x)
        } else if x > self.pos {
            x + self.inserted
        } else {
            x as int
        }
    }

    /// Whether a marker keeps offsets that a machine number can hold.
    pub open spec fn fits(self, marker: Marker) -> bool {
        self.start_at(marker.start) <= u64::MAX && self.end_at(marker.end) <= u64::MAX
    }

    /// A marker after the edit.
    pub open spec fn shifted(self, marker: Marker) -> Marker {
        Marker {
            start: self.start_at(marker.start) as u64,
            end: self.end_at(marker.end) as u64,
        }
    }
}

/// A marker after an edit.
fn shift_marker(edit: NetEdit, marker: Marker) -> (shifted: Marker)
    requires
        edit.fits(marker),
        edit.pos + edit.removed <= u64::MAX,
    ensures
        shifted == edit.shifted(marker),
{
    if edit.removed == 0 {
        let start: u64 = if marker.start >= edit.pos {
            marker.start + edit.inserted
        } else {
            marker.start
        };
        let end: u64 = if marker.end > edit.pos {
            marker.end + edit.inserted
        } else {
            marker.end
        };
        Marker { start, end }
    } else {
        Marker { start: clamp_removed(edit, marker.start), end: clamp_removed(edit, marker.end) }
    }
}

/// Where the offset `x` is after a removal.
fn clamp_removed(edit: NetEdit, x: u64) -> (moved: u64)
    requires
        edit.pos + edit.removed <= u64::MAX,
    ensures
        moved == edit.removed_at(x),
{
    if x <= edit.pos {
        x
    } else if x >= edit.pos + edit.removed {
        x - edit.removed
    } else {
        edit.pos
    }
}

/// The markers of a buffer after an edit of it.
pub open spec fn shifted_markers(
    markers: Map<u64, Map<u64, Marker>>,
    buffer: BufferId,
    edit: NetEdit,
) -> Map<u64, Map<u64, Marker>> {
    if markers.contains_key(buffer.0) {
        markers.insert(buffer.0, markers[buffer.0].map_values(|m: Marker| edit.shifted(m)))
    } else {
        markers
    }
}

/// Whether the offsets of the markers stay within what a machine number can
/// hold.
pub open spec fn markers_fit(
    markers: Map<u64, Map<u64, Marker>>,
    buffer: BufferId,
    edit: NetEdit,
) -> bool {
    markers.contains_key(buffer.0) ==> forall|k: u64| #[trigger]
        markers[buffer.0].contains_key(k) ==> edit.fits(markers[buffer.0][k])
}

/// Lets the markers of one buffer follow an edit.
fn shift_all(markers: &mut BTreeMap<u64, Marker>, edit: NetEdit)
    requires
        edit.pos + edit.removed <= u64::MAX,
        forall|k: u64| #[trigger] old(markers)@.contains_key(k) ==> edit.fits(old(markers)@[k]),
    ensures
        final(markers)@ == old(markers)@.map_values(|m: Marker| edit.shifted(m)),
{
    let ghost before = markers@;
    let keys = sorted_keys(markers);
    let mut at: usize = 0;
    proof {
        assert(keys@.take(0) =~= Seq::<u64>::empty());
    }
    while at < keys.len()
        invariant
            at <= keys.len(),
            is_sorted_domain(keys@, before),
            edit.pos + edit.removed <= u64::MAX,
            forall|k: u64| #[trigger] before.contains_key(k) ==> edit.fits(before[k]),
            forall|k: u64| #[trigger] markers@.contains_key(k) <==> before.contains_key(k),
            forall|k: u64| #[trigger]
                markers@.contains_key(k) ==> markers@[k] == if keys@.take(at as int).contains(k) {
                    edit.shifted(before[k])
                } else {
                    before[k]
                },
        decreases keys.len() - at,
    {
        let key = keys[at];
        proof {
            assert(keys@.contains(key));
            crate::window_snapshot::lemma_take_contains(keys@, at as int);
            assert(!keys@.take(at as int).contains(key)) by {
                if keys@.take(at as int).contains(key) {
                    let i = keys@.take(at as int).index_of(key);
                    assert(keys@[i] == key);
                }
            }
        }
        if let Some(marker) = markers.remove(&key) {
            markers.insert(key, shift_marker(edit, marker));
        }
        at = at + 1;
    }
    proof {
        assert(keys@.take(keys@.len() as int) =~= keys@);
        assert(markers@ =~= before.map_values(|m: Marker| edit.shifted(m)));
    }
}

impl EditorModel {
    /// This editor with the markers of a buffer where an edit has moved them.
    pub open spec fn markers_shifted(self, buffer: BufferId, edit: NetEdit) -> EditorModel {
        match self.shared_snapshot {
            Some(shared) => EditorModel {
                shared_snapshot: Some(
                    SnapshotModel {
                        markers: shifted_markers(shared.markers, buffer, edit),
                        ..shared
                    },
                ),
                ..self
            },
            None => self,
        }
    }
}

impl Editor {
    /// Lets the markers of plugins in a buffer follow an edit at `pos` that
    /// removed some bytes and inserted some. A replacement counts by its net
    /// effect.
    pub fn shift_plugin_markers_for_edit(
        &mut self,
        buffer: BufferId,
        pos: u64,
        removed: u64,
        inserted: u64,
    )
        requires
            pos + removed <= u64::MAX,
            old(self)@.shared_snapshot matches Some(shared) ==> markers_fit(
                shared.markers,
                buffer,
                net_edit(pos, removed, inserted),
            ),
        ensures
            final(self)@ == old(self)@.markers_shifted(buffer, net_edit(pos, removed, inserted)),
    {
        let ghost before = self@;
        let edit = if removed > 0 && inserted > 0 {
            if inserted >= removed {
                NetEdit { pos, removed: 0, inserted: inserted - removed }
            } else {
                NetEdit { pos, removed: removed - inserted, inserted: 0 }
            }
        } else {
            NetEdit { pos, removed, inserted }
        };
        if let Some(mut snapshot) = self.shared_snapshot.take() {
            let ghost shared = snapshot@;
            let ghost all = snapshot.markers@;
            if let Some(mut markers) = snapshot.markers.remove(&buffer.0) {
                proof {
                    assert(shared.markers.contains_key(buffer.0));
                    assert(shared.markers[buffer.0] == markers@);
                }
                shift_all(&mut markers, edit);
                snapshot.markers.insert(buffer.0, markers);
                proof {
                    assert(snapshot@.markers =~= shifted_markers(shared.markers, buffer, edit));
                }
            } else {
                proof {
                    assert(snapshot@.markers =~= shared.markers);
                }
            }
            self.shared_snapshot = Some(snapshot);
        }
    }
}

/// An edit past a marker leaves the marker alone.
pub proof fn markers_before_an_edit_stay(marker: Marker, pos: u64, removed: u64, inserted: u64)
    requires
        marker.start < pos,
        marker.end <= pos,
    ensures
        net_edit(pos, removed, inserted).shifted(marker) == marker,
{
}

/// A marker behind all that is removed moves by the difference of the lengths,
/// and keeps its own length.
pub proof fn markers_behind_an_edit_move_by_its_net_length(
    marker: Marker,
    pos: u64,
    removed: u64,
    inserted: u64,
)
    requires
        pos + removed < marker.start,
        marker.start <= marker.end,
        marker.end + inserted <= u64::MAX,
    ensures
        ({
            let moved = net_edit(pos, removed, inserted).shifted(marker);
            &&& moved.start == marker.start - removed + inserted
            &&& moved.end == marker.end - removed + inserted
        }),
{
}

/// A marker that is the right way round stays so, but for an empty one where
/// text is inserted.
pub proof fn markers_stay_the_right_way_round(
    marker: Marker,
    pos: u64,
    removed: u64,
    inserted: u64,
)
    requires
        marker.start <= marker.end,
        !(marker.start == pos && marker.end == pos && inserted > removed),
        net_edit(pos, removed, inserted).fits(marker),
    ensures
        ({
            let moved = net_edit(pos, removed, inserted).shifted(marker);
            moved.start <= moved.end
        }),
{
}

/// Removing what was inserted brings every marker back.
pub proof fn removal_undoes_insertion(marker: Marker, pos: u64, length: u64)
    requires
        net_edit(pos, 0, length).fits(marker),
        pos + length <= u64::MAX,
    ensures
        ({
            let moved = net_edit(pos, 0, length).shifted(marker);
            net_edit(pos, length, 0).shifted(moved) == marker
        }),
{
}

} // verus!
