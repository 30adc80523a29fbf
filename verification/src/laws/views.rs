//! What plugins read: that a snapshot says of buffers, cursors, splits and windows
//! what holds of them.
use std::sync::Arc;
use vstd::prelude::*;

use crate::authority::AuthoritySpec;
use crate::buffer_text::newlines;
use crate::documents::leaves_showing;
use crate::documents::BufferState;
use crate::documents::Cursor;
use crate::documents::LayoutModel;
use crate::documents::Pane;
use crate::documents::ViewMode;
use crate::editor::EditorModel;
use crate::editor_snapshot::dormant_info;
use crate::editor_snapshot::is_entry;
use crate::editor_snapshot::merged_globals;
use crate::editor::DormantRemote;
use crate::ids::BufferId;
use crate::ids::LeafId;
use crate::ids::WindowId;
use crate::lists::lemma_sorted_exists;
use crate::laws::snapshots::a_refresh_keeps_what_a_plugin_has_written;
use crate::lists::first_match;
use crate::lists::lemma_first_match_found;
use crate::lists::lemma_first_match_none;
use crate::lists::lemma_sorted_members;
use crate::snapshot::info_models;
use crate::snapshot::macro_snapshot_models;
use crate::snapshot::window_info_models;
use crate::snapshot::BufferInfo;
use crate::snapshot::CursorInfo;
use crate::snapshot::EditorStateSnapshot;
use crate::snapshot::GlobalState;
use crate::snapshot::SnapshotModel;
use crate::snapshot::SnapshotSources;
use crate::snapshot::SplitSnapshot;
use crate::snapshot::WindowInfo;
use crate::snapshot::WindowInfoModel;
use crate::window::StateEntry;
use crate::window::StateValue;
use crate::window::WindowModel;
use crate::window_snapshot::cursor_position;
use crate::window_snapshot::has_values;
use crate::window_snapshot::kept_view_states;
use crate::window_snapshot::merged_view_states;
use crate::window_snapshot::owns_cursor;
use crate::window_snapshot::remembered_in;
use crate::window_snapshot::with_missing;

verus! {

/// Whether `after` is a snapshot that was brought up to date: the shared one, or that
/// of one invocation.
pub open spec fn is_refresh(
    editor: EditorModel,
    before: SnapshotModel,
    scope: Option<WindowId>,
    sources: SnapshotSources,
    after: EditorStateSnapshot,
) -> bool {
    ||| scope is None && after@ == editor.shared_refreshed(before, sources)
    ||| after@ == editor.private_refreshed(before, scope, sources)
}

/// A snapshot shows the buffers that the window in the foreground has open, and no
/// others, each with its own name, path, language and length, as modified just where
/// it has unsaved changes, and as a terminal just where it shows one.
pub proof fn a_snapshot_shows_buffers_as_they_are(
    editor: EditorModel,
    before: SnapshotModel,
    scope: Option<WindowId>,
    sources: SnapshotSources,
    after: EditorStateSnapshot,
    k: u64,
)
    requires
        is_refresh(editor, before, scope, sources, after),
    ensures
        ({
            let window = editor.windows[editor.active_window.0];
            let documents = window.documents;
            let state = documents.buffers[k];
            let info: BufferInfo = after.buffers@[k];
            &&& after.buffers@.contains_key(k) <==> documents.buffers.contains_key(k)
            &&& documents.buffers.contains_key(k) ==> {
                &&& info.id == BufferId(k)
                &&& info.modified == state.content.modified
                &&& info.path == state.content.path
                &&& info.language == state.content.language
                &&& info.length == state.content.bytes@.len() as u64
                &&& info.line_count == state.content.line_count
                &&& info.editing_disabled == state.flags.editing_disabled
                &&& info.is_terminal == window.terminals.bindings.contains_key(k)
                &&& if documents.metadata.contains_key(k) {
                    &&& info.name@ == documents.metadata[k].display_name@
                    &&& info.is_virtual == documents.metadata[k].is_virtual
                    &&& info.is_preview == documents.metadata[k].is_preview
                } else {
                    info.name@.len() == 0 && !info.is_virtual && !info.is_preview
                }
            }
            &&& after.saved_diffs@.contains_key(k) <==> documents.buffers.contains_key(k)
            &&& documents.buffers.contains_key(k) ==> after.saved_diffs@[k]
                == state.content.saved_diff
            &&& after.text_properties@.contains_key(k) <==> documents.buffers.contains_key(k)
                && state.content.text_properties@.len() > 0
            &&& after.text_properties@.contains_key(k) ==> after.text_properties@[k]
                == state.content.text_properties
        }),
{
    lemma_shown_buffer(editor, before, scope, sources, after, k);
}

/// A snapshot shows of a buffer how the active split lays it out, whether any split
/// lays it out as a page, and which splits show it.
pub proof fn a_snapshot_shows_how_buffers_are_laid_out(
    editor: EditorModel,
    before: SnapshotModel,
    scope: Option<WindowId>,
    sources: SnapshotSources,
    after: EditorStateSnapshot,
    k: u64,
)
    requires
        is_refresh(editor, before, scope, sources, after),
        editor.windows[editor.active_window.0].documents.buffers.contains_key(k),
        editor.windows[editor.active_window.0].documents.layout is Some,
    ensures
        ({
            let layout = editor.windows[editor.active_window.0].documents.layout->0;
            let active = layout.active_split.0.0;
            let info: BufferInfo = after.buffers@[k];
            &&& if layout.view_states.contains_key(active)
                && layout.view_states[active].keyed_states.contains_key(k) {
                &&& info.view_mode == layout.view_states[active].keyed_states[k].view_mode
                &&& info.compose_width == layout.view_states[active].keyed_states[k].compose_width
            } else {
                info.view_mode == ViewMode::Source && info.compose_width is None
            }
            &&& info.is_composing_in_any_split <==> exists|split: u64| #[trigger]
                layout.view_states.contains_key(split)
                    && layout.view_states[split].keyed_states.contains_key(k)
                    && layout.view_states[split].keyed_states[k].view_mode == ViewMode::PageView
            &&& forall|leaf: LeafId| #[trigger]
                info.splits@.contains(leaf) <==> exists|i: int|
                    0 <= i < layout.panes.len() && (#[trigger] layout.panes[i]).leaf == leaf
                        && layout.panes[i].buffer == BufferId(k)
        }),
{
    let layout = editor.windows[editor.active_window.0].documents.layout->0;
    let info: BufferInfo = after.buffers@[k];
    lemma_shown_buffer(editor, before, scope, sources, after, k);
    assert forall|leaf: LeafId| #[trigger] info.splits@.contains(leaf) <==> exists|i: int|
        0 <= i < layout.panes.len() && (#[trigger] layout.panes[i]).leaf == leaf
            && layout.panes[i].buffer == BufferId(k) by {
        lemma_leaves_showing(layout.panes, BufferId(k), leaf);
    }
    if info.is_composing_in_any_split {
        let split = choose|split: u64|
            #![trigger remembered_in(layout, split, k)]
            remembered_in(layout, split, k) is Some && remembered_in(
                layout,
                split,
                k,
            )->0.view_mode is PageView;
        assert(layout.view_states.contains_key(split));
    }
    if exists|split: u64| #[trigger]
        layout.view_states.contains_key(split)
            && layout.view_states[split].keyed_states.contains_key(k)
            && layout.view_states[split].keyed_states[k].view_mode == ViewMode::PageView {
        let split = choose|split: u64| #[trigger]
            layout.view_states.contains_key(split)
                && layout.view_states[split].keyed_states.contains_key(k)
                && layout.view_states[split].keyed_states[k].view_mode == ViewMode::PageView;
        assert(remembered_in(layout, split, k) is Some);
    }
}

proof fn lemma_shown_buffer(
    editor: EditorModel,
    before: SnapshotModel,
    scope: Option<WindowId>,
    sources: SnapshotSources,
    after: EditorStateSnapshot,
    k: u64,
)
    requires
        is_refresh(editor, before, scope, sources, after),
    ensures
        ({
            let window = editor.active();
            &&& after.buffers@.contains_key(k) <==> window.documents.buffers.contains_key(k)
            &&& window.documents.buffers.contains_key(k) ==> after.buffers@[k]@
                == window.buffer_info(window.documents.layout->0, k)
        }),
{
    let window = editor.active();
    let infos = info_models(after.buffers@);
    let shown = window.documents.buffers.map_entries(
        |b: u64, s: BufferState| window.buffer_info(window.documents.layout->0, b),
    );
    assert(after@.window.buffers == infos);
    assert(infos.contains_key(k) <==> after.buffers@.contains_key(k));
    assert(shown.contains_key(k) <==> window.documents.buffers.contains_key(k));
    assert(infos =~= shown);
    if window.documents.buffers.contains_key(k) {
        assert(infos[k] == after.buffers@[k]@);
        assert(shown[k] == window.buffer_info(window.documents.layout->0, k));
    }
}

proof fn lemma_leaves_showing(panes: Seq<Pane>, buffer: BufferId, leaf: LeafId)
    ensures
        leaves_showing(panes, buffer).contains(leaf) <==> exists|i: int|
            0 <= i < panes.len() && (#[trigger] panes[i]).leaf == leaf && panes[i].buffer == buffer,
    decreases panes.len(),
{
    if panes.len() > 0 {
        let rest = panes.drop_last();
        lemma_leaves_showing(rest, buffer, leaf);
        let shown = leaves_showing(rest, buffer);
        let all = leaves_showing(panes, buffer);
        if all.contains(leaf) {
            let j = all.index_of(leaf);
            if j < shown.len() {
                assert(shown[j] == leaf);
                let i = choose|i: int|
                    0 <= i < rest.len() && (#[trigger] rest[i]).leaf == leaf && rest[i].buffer
                        == buffer;
                assert(panes[i].leaf == leaf);
            } else {
                assert(panes[panes.len() - 1].leaf == leaf);
            }
        }
        if exists|i: int|
            0 <= i < panes.len() && (#[trigger] panes[i]).leaf == leaf && panes[i].buffer == buffer {
            let i = choose|i: int|
                0 <= i < panes.len() && (#[trigger] panes[i]).leaf == leaf && panes[i].buffer
                    == buffer;
            if i < rest.len() {
                assert(rest[i].leaf == leaf);
                let j = shown.index_of(leaf);
                assert(all[j] == leaf);
            } else {
                assert(all[all.len() - 1] == leaf);
            }
        }
    }
}

/// Whether a cursor is shown as it is: where it stands, with the two ends of what it
/// selects in order.
pub open spec fn shows_cursor(shown: CursorInfo, cursor: Cursor) -> bool {
    &&& shown.position == cursor.position
    &&& shown.selection is Some <==> cursor.anchor is Some
    &&& cursor.anchor matches Some(anchor) ==> {
        let selection = shown.selection->0;
        &&& selection.start <= selection.end
        &&& selection.start == anchor || selection.start == cursor.position
        &&& selection.end == anchor || selection.end == cursor.position
        &&& selection.start + selection.end == anchor + cursor.position
    }
}

/// A snapshot shows the cursors of the split that is in use, the primary one first,
/// and the text that the primary one selects.
pub proof fn a_snapshot_shows_cursors_where_they_are(
    editor: EditorModel,
    before: SnapshotModel,
    scope: Option<WindowId>,
    sources: SnapshotSources,
    after: EditorStateSnapshot,
)
    requires
        is_refresh(editor, before, scope, sources, after),
        editor.windows[editor.active_window.0].documents.layout is Some,
    ensures
        ({
            let documents = editor.windows[editor.active_window.0].documents;
            let layout = documents.layout->0;
            let split = layout.effective_split.0.0;
            let state = layout.view_states[split];
            let open = documents.buffers.contains_key(documents.active_buffer.0);
            let bytes = documents.buffers[documents.active_buffer.0].content.bytes@;
            &&& after.active_buffer == documents.active_buffer
            &&& after.active_split == layout.active_split
            &&& after.active_window == editor.active_window
            &&& if layout.view_states.contains_key(split) {
                &&& after.primary_cursor is Some
                &&& shows_cursor(after.primary_cursor->0, state.cursor)
                &&& after.all_cursors@.len() == match state.other_cursors {
                    Some(others) => 1 + others@.len(),
                    None => 1,
                }
                &&& shows_cursor(after.all_cursors@[0], state.cursor)
                &&& state.other_cursors matches Some(others) ==> forall|i: int|
                    0 <= i < others@.len() ==> shows_cursor(
                        #[trigger] after.all_cursors@[i + 1],
                        others@[i],
                    )
                &&& open ==> after.primary_cursor_line == Some(
                    documents.buffers[documents.active_buffer.0].content.primary_cursor_line,
                )
                &&& after.viewport is Some
                &&& after.viewport->0.top_byte == state.viewport.top_byte
                &&& after.viewport->0.left_column == state.viewport.left_column
                &&& after.viewport->0.width == state.viewport.width
                &&& after.viewport->0.height == state.viewport.height
                &&& open && state.cursor.anchor is Some && state.cursor.anchor->0
                    <= state.cursor.position <= bytes.len() ==> after.selected_text is Some
                    && after.selected_text->0@ == bytes.subrange(
                    state.cursor.anchor->0 as int,
                    state.cursor.position as int,
                )
                &&& open && state.cursor.anchor is Some && state.cursor.position
                    <= state.cursor.anchor->0 <= bytes.len() ==> after.selected_text is Some
                    && after.selected_text->0@ == bytes.subrange(
                    state.cursor.position as int,
                    state.cursor.anchor->0 as int,
                )
            } else {
                &&& after.primary_cursor is None
                &&& after.primary_cursor_line is None
                &&& after.all_cursors@.len() == 0
                &&& after.viewport is None
                &&& after.selected_text is None
            }
        }),
{
    let documents = editor.windows[editor.active_window.0].documents;
    let layout = documents.layout->0;
    let split = layout.effective_split.0.0;
    if layout.view_states.contains_key(split) {
        let state = layout.view_states[split];
        let shown = after@.window.all_cursors;
        assert(shown[0] == documents.cursor_info(documents.active_buffer, state.cursors()[0]));
        if let Some(others) = state.other_cursors {
            assert forall|i: int| 0 <= i < others@.len() implies shows_cursor(
                #[trigger] after.all_cursors@[i + 1],
                others@[i],
            ) by {
                assert(state.cursors()[i + 1] == others@[i]);
                assert(shown[i + 1] == documents.cursor_info(
                    documents.active_buffer,
                    state.cursors()[i + 1],
                ));
            }
        }
    }
}

/// Lines are counted from zero by the newlines before an offset, for cursors and for
/// the top of the view, where the buffer has a line index.
pub proof fn a_snapshot_counts_lines_by_their_newlines(
    editor: EditorModel,
    before: SnapshotModel,
    scope: Option<WindowId>,
    sources: SnapshotSources,
    after: EditorStateSnapshot,
)
    requires
        is_refresh(editor, before, scope, sources, after),
        editor.windows[editor.active_window.0].documents.layout is Some,
        ({
            let layout = editor.windows[editor.active_window.0].documents.layout->0;
            layout.view_states.contains_key(layout.effective_split.0.0)
        }),
    ensures
        ({
            let documents = editor.windows[editor.active_window.0].documents;
            let layout = documents.layout->0;
            let state = layout.view_states[layout.effective_split.0.0];
            let content = documents.buffers[documents.active_buffer.0].content;
            let bytes = content.bytes@;
            let indexed = documents.buffers.contains_key(documents.active_buffer.0)
                && content.line_count is Some;
            &&& after.primary_cursor->0.line is Some <==> indexed
            &&& after.viewport->0.top_line is Some <==> indexed
            &&& indexed && state.cursor.position <= bytes.len() && bytes.len() <= u64::MAX
                ==> after.primary_cursor->0.line->0 == newline_count(
                bytes,
                state.cursor.position as int,
            )
            &&& indexed && state.viewport.top_byte <= bytes.len() && bytes.len() <= u64::MAX
                ==> after.viewport->0.top_line->0 == newline_count(
                bytes,
                state.viewport.top_byte as int,
            )
        }),
{
    let documents = editor.windows[editor.active_window.0].documents;
    let layout = documents.layout->0;
    let state = layout.view_states[layout.effective_split.0.0];
    let bytes = documents.buffers[documents.active_buffer.0].content.bytes@;
    if state.cursor.position <= bytes.len() {
        lemma_newlines_are_counted(bytes, state.cursor.position as int);
    }
    if state.viewport.top_byte <= bytes.len() {
        lemma_newlines_are_counted(bytes, state.viewport.top_byte as int);
    }
    assert(bytes.take(bytes.len() as int) =~= bytes);
}

/// How many of the first `end` bytes are newlines.
pub open spec fn newline_count(bytes: Seq<u8>, end: int) -> int {
    Set::new(|i: int| 0 <= i < end && bytes[i] == 10u8).len() as int
}

pub proof fn lemma_newlines_are_counted(bytes: Seq<u8>, end: int)
    requires
        0 <= end <= bytes.len(),
    ensures
        newlines(bytes.take(end)) == newline_count(bytes, end),
        newline_count(bytes, end) <= end,
        Set::new(|i: int| 0 <= i < end && bytes[i] == 10u8).finite(),
    decreases end,
{
    let all = Set::new(|i: int| 0 <= i < end && bytes[i] == 10u8);
    if end == 0 {
        assert(all =~= Set::empty());
    } else {
        lemma_newlines_are_counted(bytes, end - 1);
        let rest = Set::new(|i: int| 0 <= i < end - 1 && bytes[i] == 10u8);
        assert(bytes.take(end).drop_last() =~= bytes.take(end - 1));
        assert(bytes.take(end).last() == bytes[end - 1]);
        if bytes[end - 1] == 10u8 {
            assert(all =~= rest.insert(end - 1));
        } else {
            assert(all =~= rest);
        }
    }
}

/// Whether a split remembers a buffer and stands for it: the host of a group does not
/// stand for a hidden panel of one.
pub open spec fn stands_for(window: WindowModel, layout: LayoutModel, split: u64, k: u64) -> bool {
    let documents = window.documents;
    &&& layout.view_states.contains_key(split)
    &&& layout.view_states[split].keyed_states.contains_key(k)
    &&& !(documents.metadata.contains_key(k) && documents.metadata[k].hidden_from_tabs
        && documents.groups.contains_key(split))
}

/// A snapshot has a cursor position for every open buffer: where the first split that
/// stands for it has its cursor, and the start of the buffer where there is none.
pub proof fn a_snapshot_has_a_cursor_for_every_buffer(
    editor: EditorModel,
    before: SnapshotModel,
    scope: Option<WindowId>,
    sources: SnapshotSources,
    after: EditorStateSnapshot,
    k: u64,
    split: u64,
)
    requires
        is_refresh(editor, before, scope, sources, after),
        editor.windows[editor.active_window.0].documents.layout is Some,
        editor.windows[editor.active_window.0].documents.layout->0.view_states.dom().finite(),
    ensures
        ({
            let window = editor.windows[editor.active_window.0];
            let layout = window.documents.layout->0;
            let state = layout.view_states[split];
            &&& after.cursor_positions@.contains_key(k) <==> window.documents.buffers.contains_key(
                k,
            )
            &&& window.documents.buffers.contains_key(k) && stands_for(window, layout, split, k)
                && (forall|other: u64| #[trigger]
                stands_for(window, layout, other, k) ==> split <= other)
                ==> after.cursor_positions@[k] == if state.active_buffer == BufferId(k) {
                state.cursor.position
            } else {
                state.keyed_states[k].cursor.position
            }
            &&& window.documents.buffers.contains_key(k) && (forall|other: u64|
                !#[trigger] stands_for(window, layout, other, k)) ==> after.cursor_positions@[k]
                == 0
        }),
{
    let window = editor.windows[editor.active_window.0];
    let layout = window.documents.layout->0;
    let keys = lemma_sorted_exists(layout.view_states.dom());
    lemma_sorted_members(keys, |x: u64| layout.view_states.contains_key(x));
    let wanted = owns_cursor(window.documents, layout, k);
    let shown = window.documents.buffers.map_entries(
        |b: u64, s: BufferState| cursor_position(window.documents, layout, b),
    );
    assert(after@.window.cursor_positions == shown);
    assert(shown.contains_key(k) <==> window.documents.buffers.contains_key(k));
    if window.documents.buffers.contains_key(k) {
        assert(shown[k] == cursor_position(window.documents, layout, k));
        if stands_for(window, layout, split, k) && (forall|other: u64| #[trigger]
            stands_for(window, layout, other, k) ==> split <= other) {
            assert(keys.contains(split));
            let at = keys.index_of(split);
            assert forall|i: int| 0 <= i < at implies !wanted(#[trigger] keys[i]) by {
                assert(keys[i] < keys[at]);
                assert(!stands_for(window, layout, keys[i], k));
            }
            assert(wanted(keys[at]));
            lemma_first_match_found(keys, wanted, at);
        }
        if forall|other: u64| !#[trigger] stands_for(window, layout, other, k) {
            assert forall|i: int| 0 <= i < keys.len() implies !wanted(#[trigger] keys[i]) by {
                assert(!stands_for(window, layout, keys[i], k));
            }
            lemma_first_match_none(keys, wanted);
        }
    }
}

/// Whether a split is shown as it is: what it shows, under which label, where on the
/// screen, and which part of the buffer is in view.
pub open spec fn shows_split(shown: SplitSnapshot, pane: Pane, layout: LayoutModel) -> bool {
    let state = layout.view_states[pane.leaf.0.0];
    &&& layout.view_states.contains_key(pane.leaf.0.0)
    &&& shown.split_id == pane.leaf
    &&& shown.buffer_id == state.active_buffer
    &&& shown.label == pane.label
    &&& shown.x == pane.rect.x
    &&& shown.y == pane.rect.y
    &&& shown.width == pane.rect.width
    &&& shown.height == pane.rect.height
    &&& shown.viewport.top_byte == state.viewport.top_byte
    &&& shown.viewport.left_column == state.viewport.left_column
    &&& shown.viewport.width == state.viewport.width
    &&& shown.viewport.height == state.viewport.height
}

/// A snapshot shows every split that is laid out and has a view, and no more than are
/// laid out; in their order on the screen where every one of them has a view.
pub proof fn a_snapshot_shows_splits_as_they_are(
    editor: EditorModel,
    before: SnapshotModel,
    scope: Option<WindowId>,
    sources: SnapshotSources,
    after: EditorStateSnapshot,
)
    requires
        is_refresh(editor, before, scope, sources, after),
        editor.windows[editor.active_window.0].documents.layout is Some,
    ensures
        ({
            let layout = editor.windows[editor.active_window.0].documents.layout->0;
            let panes = layout.panes;
            &&& after.splits@.len() <= panes.len()
            &&& forall|i: int|
                0 <= i < panes.len() && layout.view_states.contains_key(
                    (#[trigger] panes[i]).leaf.0.0,
                ) ==> exists|j: int|
                    0 <= j < after.splits@.len() && shows_split(
                        #[trigger] after.splits@[j],
                        panes[i],
                        layout,
                    )
            &&& (forall|i: int|
                0 <= i < panes.len() ==> layout.view_states.contains_key(
                    (#[trigger] panes[i]).leaf.0.0,
                )) ==> {
                &&& after.splits@.len() == panes.len()
                &&& forall|i: int|
                    0 <= i < panes.len() ==> shows_split(
                        #[trigger] after.splits@[i],
                        panes[i],
                        layout,
                    )
            }
        }),
{
    let window = editor.windows[editor.active_window.0];
    let layout = window.documents.layout->0;
    lemma_splits_shown(window, layout, layout.panes);
}

proof fn lemma_splits_shown(window: WindowModel, layout: LayoutModel, panes: Seq<Pane>)
    ensures
        ({
            let shown = window.documents.split_snapshots(layout, panes);
            &&& shown.len() <= panes.len()
            &&& forall|i: int|
                0 <= i < panes.len() && layout.view_states.contains_key(
                    (#[trigger] panes[i]).leaf.0.0,
                ) ==> exists|j: int|
                    0 <= j < shown.len() && shows_split(#[trigger] shown[j], panes[i], layout)
            &&& (forall|i: int|
                0 <= i < panes.len() ==> layout.view_states.contains_key(
                    (#[trigger] panes[i]).leaf.0.0,
                )) ==> {
                &&& shown.len() == panes.len()
                &&& forall|i: int|
                    0 <= i < panes.len() ==> shows_split(#[trigger] shown[i], panes[i], layout)
            }
        }),
{
    lemma_split_count(window, layout, panes);
    assert forall|i: int|
        0 <= i < panes.len() && layout.view_states.contains_key(
            (#[trigger] panes[i]).leaf.0.0,
        ) implies exists|j: int|
        0 <= j < window.documents.split_snapshots(layout, panes).len() && shows_split(
            #[trigger] window.documents.split_snapshots(layout, panes)[j],
            panes[i],
            layout,
        ) by {
        lemma_split_is_shown(window, layout, panes, i);
    }
    if forall|i: int|
        0 <= i < panes.len() ==> layout.view_states.contains_key((#[trigger] panes[i]).leaf.0.0) {
        lemma_splits_in_order(window, layout, panes);
    }
}

proof fn lemma_split_count(window: WindowModel, layout: LayoutModel, panes: Seq<Pane>)
    ensures
        window.documents.split_snapshots(layout, panes).len() <= panes.len(),
    decreases panes.len(),
{
    if panes.len() > 0 {
        lemma_split_count(window, layout, panes.drop_last());
    }
}

proof fn lemma_split_is_shown(
    window: WindowModel,
    layout: LayoutModel,
    panes: Seq<Pane>,
    i: int,
) -> (j: int)
    requires
        0 <= i < panes.len(),
        layout.view_states.contains_key(panes[i].leaf.0.0),
    ensures
        0 <= j < window.documents.split_snapshots(layout, panes).len(),
        shows_split(window.documents.split_snapshots(layout, panes)[j], panes[i], layout),
    decreases panes.len(),
{
    let rest = panes.drop_last();
    let earlier = window.documents.split_snapshots(layout, rest);
    if i < rest.len() {
        assert(rest[i] == panes[i]);
        lemma_split_is_shown(window, layout, rest, i)
    } else {
        assert(panes.last() == panes[i]);
        earlier.len() as int
    }
}

proof fn lemma_splits_in_order(window: WindowModel, layout: LayoutModel, panes: Seq<Pane>)
    requires
        forall|i: int|
            0 <= i < panes.len() ==> layout.view_states.contains_key(
                (#[trigger] panes[i]).leaf.0.0,
            ),
    ensures
        window.documents.split_snapshots(layout, panes).len() == panes.len(),
        forall|i: int|
            0 <= i < panes.len() ==> shows_split(
                #[trigger] window.documents.split_snapshots(layout, panes)[i],
                panes[i],
                layout,
            ),
    decreases panes.len(),
{
    if panes.len() > 0 {
        let rest = panes.drop_last();
        assert forall|i: int| 0 <= i < rest.len() implies layout.view_states.contains_key(
            (#[trigger] rest[i]).leaf.0.0,
        ) by {
            assert(rest[i] == panes[i]);
        }
        lemma_splits_in_order(window, layout, rest);
        let shown = window.documents.split_snapshots(layout, panes);
        let earlier = window.documents.split_snapshots(layout, rest);
        assert(layout.view_states.contains_key(panes[panes.len() - 1].leaf.0.0));
        assert forall|i: int| 0 <= i < panes.len() implies shows_split(
            #[trigger] shown[i],
            panes[i],
            layout,
        ) by {
            if i < rest.len() {
                assert(shown[i] == earlier[i]);
                assert(panes[i] == rest[i]);
            }
        }
    }
}

/// A snapshot shows of the editor as a whole what the active window and the host say.
pub proof fn a_snapshot_shows_the_editor_as_it_is(
    editor: EditorModel,
    before: SnapshotModel,
    scope: Option<WindowId>,
    sources: SnapshotSources,
    after: EditorStateSnapshot,
)
    requires
        is_refresh(editor, before, scope, sources, after),
    ensures
        ({
            let window = editor.windows[editor.active_window.0];
            &&& after.working_dir@ == window.root.path@
            &&& after.authority_label@ == window.authority.display_label@
            &&& after.trust == window.authority.trust
            &&& after.env_active == window.authority.env_active
            &&& after.terminal_width == editor.config.terminal_width
            &&& after.terminal_height == editor.config.terminal_height
            &&& after.active_window == editor.active_window
            &&& after.clipboard@ == sources.clipboard@
            &&& after.detected_env@ == sources.detected_env@
            &&& after.config == sources.config
            &&& after.user_config == sources.user_config
            &&& after.session_state@ == window.plugin_state
            &&& after.diagnostics@ == window.diagnostics
            &&& after.folding_ranges@ == window.folding_ranges
            &&& after.editor_mode == window.ui.editor_mode
            &&& after.has_active_search == window.ui.search_active
            &&& after.grammar_generation == sources.grammars.generation
            &&& after.available_grammars@ == if before.window.grammar_generation
                == sources.grammars.generation {
                before.window.available_grammars
            } else {
                sources.grammars.grammars@
            }
        }),
{
}

/// A snapshot shows every recorded macro under its register, and no other.
pub proof fn a_snapshot_shows_every_macro(
    editor: EditorModel,
    before: SnapshotModel,
    scope: Option<WindowId>,
    sources: SnapshotSources,
    after: EditorStateSnapshot,
)
    requires
        is_refresh(editor, before, scope, sources, after),
        editor.windows[editor.active_window.0].ui.macros.dom().finite(),
    ensures
        ({
            let macros = editor.windows[editor.active_window.0].ui.macros;
            &&& forall|i: int|
                0 <= i < after.macros@.len() ==> macros.contains_key(
                    (#[trigger] after.macros@[i]).register,
                ) && after.macros@[i].steps@ == macros[after.macros@[i].register]
            &&& forall|i: int, j: int|
                0 <= i < j < after.macros@.len() ==> (#[trigger] after.macros@[i]).register < (
                #[trigger] after.macros@[j]).register
            &&& forall|register: u64| #[trigger]
                macros.contains_key(register) ==> exists|i: int|
                    0 <= i < after.macros@.len() && (#[trigger] after.macros@[i]).register
                        == register
        }),
{
    let window = editor.windows[editor.active_window.0];
    let macros = window.ui.macros;
    let keys = lemma_sorted_exists(macros.dom());
    lemma_sorted_members(keys, |x: u64| macros.contains_key(x));
    let listed = window.macro_list();
    assert(macro_snapshot_models(after.macros@) == listed);
    assert forall|i: int| 0 <= i < after.macros@.len() implies (
    #[trigger] after.macros@[i]).register == keys[i] && after.macros@[i].steps@
        == macros[keys[i]] && macros.contains_key(keys[i]) by {
        assert(macro_snapshot_models(after.macros@)[i] == after.macros@[i]@);
        assert(listed[i].register == keys[i]);
        assert(keys.contains(keys[i]));
    }
    assert forall|register: u64| #[trigger] macros.contains_key(register) implies exists|i: int|
        0 <= i < after.macros@.len() && (#[trigger] after.macros@[i]).register == register by {
        assert(keys.contains(register));
        let i = keys.index_of(register);
        assert(after.macros@[i].register == register);
    }
}

/// Whether the `i`-th value is the first that the session manager keeps under `key`.
pub open spec fn is_kept_by_manager(state: Seq<StateEntry>, key: Seq<char>, i: int) -> bool {
    &&& 0 <= i < state.len()
    &&& state[i].plugin@ == "orchestrator"@ && state[i].key@ == key
    &&& forall|j: int|
        0 <= j < i ==> !((#[trigger] state[j]).plugin@ == "orchestrator"@ && state[j].key@ == key)
}

/// Whether the project and the sharing of a session are shown as the session manager
/// has recorded them.
pub open spec fn shows_records(
    shown: WindowInfo,
    window: WindowModel,
    spellings: Map<Seq<char>, String>,
) -> bool {
    let state = window.plugin_state;
    let root = window.root.path@;
    &&& forall|i: int| #[trigger]
        is_kept_by_manager(state, "shared_worktree"@, i) ==> shown.shared_worktree
            == (state[i].value == StateValue::Flag(true))
    &&& (forall|i: int| !#[trigger] is_kept_by_manager(state, "shared_worktree"@, i))
        ==> !shown.shared_worktree
    &&& forall|i: int| #[trigger]
        is_kept_by_manager(state, "project_path"@, i) ==> match state[i].value {
            StateValue::Text(path) => path@.len() > 0 ==> shown.project_path@
                == if spellings.contains_key(path@) {
                spellings[path@]@
            } else {
                path@
            },
            _ => shown.project_path@ == shown.root@,
        }
    &&& (forall|i: int| !#[trigger] is_kept_by_manager(state, "project_path"@, i))
        ==> shown.project_path@ == if spellings.contains_key(root) {
        spellings[root]@
    } else {
        root
    }
}

proof fn lemma_records_shown(
    shown: WindowInfo,
    id: u64,
    window: WindowModel,
    spellings: Map<Seq<char>, String>,
)
    requires
        shown@ == window.session_info(id, spellings),
    ensures
        shows_records(shown, window, spellings),
{
    let state = window.plugin_state;
    lemma_kept_by_manager(state, "shared_worktree"@);
    lemma_kept_by_manager(state, "project_path"@);
}

proof fn lemma_kept_by_manager(state: Seq<StateEntry>, key: Seq<char>)
    ensures
        forall|i: int| #[trigger]
            is_kept_by_manager(state, key, i) ==> first_match(state, is_entry("orchestrator"@, key))
                == Some(state[i]),
        (forall|i: int| !#[trigger] is_kept_by_manager(state, key, i)) ==> first_match(
            state,
            is_entry("orchestrator"@, key),
        ) is None,
{
    let wanted = is_entry("orchestrator"@, key);
    assert forall|i: int| #[trigger] is_kept_by_manager(state, key, i) implies first_match(
        state,
        wanted,
    ) == Some(state[i]) by {
        lemma_first_match_found(state, wanted, i);
    }
    if forall|i: int| !#[trigger] is_kept_by_manager(state, key, i) {
        assert forall|i: int| 0 <= i < state.len() implies !wanted(#[trigger] state[i]) by {
            lemma_nothing_kept(state, key, i);
        }
        lemma_first_match_none(state, wanted);
    }
}

proof fn lemma_nothing_kept(state: Seq<StateEntry>, key: Seq<char>, i: int)
    requires
        forall|k: int| !#[trigger] is_kept_by_manager(state, key, k),
        0 <= i < state.len(),
    ensures
        !is_entry("orchestrator"@, key)(state[i]),
    decreases i,
{
    assert forall|j: int| 0 <= j < i implies !((#[trigger] state[j]).plugin@ == "orchestrator"@
        && state[j].key@ == key) by {
        lemma_nothing_kept(state, key, j);
    }
    assert(!is_kept_by_manager(state, key, i));
}

/// Whether a session is shown as the window that it has.
pub open spec fn shows_window(
    shown: WindowInfo,
    id: u64,
    window: WindowModel,
    spellings: Map<Seq<char>, String>,
) -> bool {
    &&& shown.id == WindowId(id)
    &&& shows_records(shown, window, spellings)
    &&& shown.stable_id@ == window.stable_id
    &&& shown.label@ == window.label
    &&& shown.root@ == if spellings.contains_key(window.root.path@) {
        spellings[window.root.path@]@
    } else {
        window.root.path@
    }
    &&& shown.remote is Some <==> window.authority_spec is RemoteAgent
    &&& shown.remote matches Some(backend) ==> {
        &&& window.authority_spec == AuthoritySpec::RemoteAgent(backend.spec)
        &&& backend.connected <==> window.authority.remote is Some
            && window.authority.remote->0.connected
    }
    &&& shown.selected_agent_terminal matches Some(agent) ==> {
        &&& agent.window == WindowId(id)
        &&& window.terminals.tracked_agent == Some(agent.terminal)
        &&& window.terminals.live.contains_key(agent.terminal.0)
        &&& window.terminals.live[agent.terminal.0].alive
    }
    &&& forall|buffer: u64|
        window.terminals.tracked_agent is Some && #[trigger] window.terminals.bindings.contains_key(
            buffer,
        ) && window.terminals.bindings[buffer] == window.terminals.tracked_agent->0
            && window.terminals.live.contains_key((window.terminals.tracked_agent->0).0)
            && window.terminals.live[(window.terminals.tracked_agent->0).0].alive
            ==> shown.selected_agent_terminal is Some
}

/// Whether a session that has no window is shown as it was saved.
pub open spec fn shows_dormant(
    shown: WindowInfo,
    id: u64,
    dormant: DormantRemote,
    spellings: Map<Seq<char>, String>,
) -> bool {
    &&& shown.id == WindowId(id)
    &&& shown.label@ == dormant.label@
    &&& match dormant.stable_id {
        Some(stable) => shown.stable_id@ == stable@,
        None => shown.stable_id@.len() == 0,
    }
    &&& shown.root@ == if spellings.contains_key(dormant.root.path@) {
        spellings[dormant.root.path@]@
    } else {
        dormant.root.path@
    }
    &&& shown.shared_worktree == dormant.shared_worktree
    &&& shown.remote is Some <==> dormant.authority_spec is RemoteAgent
    &&& shown.remote matches Some(backend) ==> dormant.authority_spec
        == AuthoritySpec::RemoteAgent(backend.spec) && !backend.connected
    &&& shown.selected_agent_terminal is None
}

/// A snapshot shows every session that it may show: one that has a window as that
/// window, and one that has none as it was saved.
pub proof fn a_snapshot_shows_every_session(
    editor: EditorModel,
    before: SnapshotModel,
    scope: Option<WindowId>,
    sources: SnapshotSources,
    after: EditorStateSnapshot,
    id: u64,
)
    requires
        is_refresh(editor, before, scope, sources, after),
        editor.windows.dom().finite(),
        editor.dormant_remote.dom().finite(),
    ensures
        editor.windows.contains_key(id) && (scope is None || scope == Some(WindowId(id)))
            ==> exists|j: int|
            0 <= j < after.windows@.len() && shows_window(
                #[trigger] after.windows@[j],
                id,
                editor.windows[id],
                sources.spellings@,
            ),
        !editor.windows.contains_key(id) && editor.dormant_remote.contains_key(id) && (scope is None
            || scope == Some(WindowId(id))) ==> exists|j: int|
            0 <= j < after.windows@.len() && shows_dormant(
                #[trigger] after.windows@[j],
                id,
                editor.dormant_remote[id],
                sources.spellings@,
            ),
        forall|j: int|
            0 <= j < after.windows@.len() ==> {
                &&& editor.windows.contains_key((#[trigger] after.windows@[j]).id.0)
                    || editor.dormant_remote.contains_key(after.windows@[j].id.0)
                &&& scope is None || scope == Some(after.windows@[j].id)
            },
{
    let either = |k: u64| editor.windows.contains_key(k) || editor.dormant_remote.contains_key(k);
    let keys = lemma_sorted_exists(editor.windows.dom().union(editor.dormant_remote.dom()));
    lemma_sorted_members(keys, either);
    let spellings = sources.spellings@;
    let infos = editor.session_infos(keys, scope, spellings);
    assert(after@.editor.windows == infos);
    assert(window_info_models(after.windows@) == infos);
    assert forall|j: int| 0 <= j < after.windows@.len() implies (
    #[trigger] after.windows@[j])@ == infos[j] by {
        assert(window_info_models(after.windows@)[j] == after.windows@[j]@);
    }
    lemma_sessions_shown(editor, keys, scope, spellings);
    if either(id) && (scope is None || scope == Some(WindowId(id))) {
        assert(keys.contains(id));
        let j = choose|j: int|
            0 <= j < infos.len() && #[trigger] infos[j] == editor.session_shown(id, spellings);
        assert(after.windows@[j]@ == infos[j]);
        if editor.windows.contains_key(id) {
            let window = editor.windows[id];
            lemma_records_shown(after.windows@[j], id, window, spellings);
            assert(shows_window(after.windows@[j], id, window, spellings));
        } else {
            assert(shows_dormant(after.windows@[j], id, editor.dormant_remote[id], spellings));
        }
    }
    assert forall|j: int| 0 <= j < after.windows@.len() implies (editor.windows.contains_key(
        (#[trigger] after.windows@[j]).id.0,
    ) || editor.dormant_remote.contains_key(after.windows@[j].id.0)) && (scope is None || scope
        == Some(after.windows@[j].id)) by {
        assert(after.windows@[j]@ == infos[j]);
        assert(keys.contains(infos[j].id.0));
        assert(either(infos[j].id.0));
    }
}

impl EditorModel {
    /// What is shown of the session `id`.
    spec fn session_shown(self, id: u64, spellings: Map<Seq<char>, String>) -> WindowInfoModel {
        if self.windows.contains_key(id) {
            self.windows[id].session_info(id, spellings)
        } else {
            dormant_info(self.dormant_remote[id], id, spellings)
        }
    }
}

proof fn lemma_sessions_shown(
    editor: EditorModel,
    ids: Seq<u64>,
    scope: Option<WindowId>,
    spellings: Map<Seq<char>, String>,
)
    ensures
        ({
            let infos = editor.session_infos(ids, scope, spellings);
            &&& forall|id: u64| #[trigger]
                ids.contains(id) && (scope is None || scope == Some(WindowId(id))) ==> exists|j: int|
                    0 <= j < infos.len() && #[trigger] infos[j] == editor.session_shown(
                        id,
                        spellings,
                    )
            &&& forall|j: int|
                0 <= j < infos.len() ==> ids.contains((#[trigger] infos[j]).id.0) && (scope is None
                    || scope == Some(infos[j].id))
        }),
    decreases ids.len(),
{
    if ids.len() > 0 {
        let rest = ids.drop_last();
        lemma_sessions_shown(editor, rest, scope, spellings);
        let infos = editor.session_infos(ids, scope, spellings);
        let earlier = editor.session_infos(rest, scope, spellings);
        assert forall|id: u64| #[trigger]
            ids.contains(id) && (scope is None || scope == Some(WindowId(id))) implies exists|j: int|
            0 <= j < infos.len() && #[trigger] infos[j] == editor.session_shown(id, spellings) by {
            if id == ids.last() {
                assert(infos[earlier.len() as int] == editor.session_shown(id, spellings));
            } else {
                let i = ids.index_of(id);
                assert(rest[i] == id);
                assert(rest.contains(id));
                let j = choose|j: int|
                    0 <= j < earlier.len() && #[trigger] earlier[j] == editor.session_shown(
                        id,
                        spellings,
                    );
                assert(infos[j] == earlier[j]);
            }
        }
        assert forall|j: int| 0 <= j < infos.len() implies ids.contains(
            (#[trigger] infos[j]).id.0,
        ) && (scope is None || scope == Some(infos[j].id)) by {
            if j < earlier.len() {
                assert(infos[j] == earlier[j]);
                let i = rest.index_of(earlier[j].id.0);
                assert(ids[i] == earlier[j].id.0);
            } else {
                assert(ids[ids.len() - 1] == ids.last());
            }
        }
    }
}

/// Of the values that plugins keep with a buffer in the split in use, a snapshot shows
/// the one that a plugin wrote last, and otherwise the one that the split keeps; none
/// of a buffer that is closed stays from before, and none of another split.
pub proof fn a_snapshot_shows_the_values_of_its_split(
    editor: EditorModel,
    before: SnapshotModel,
    scope: Option<WindowId>,
    sources: SnapshotSources,
    after: EditorStateSnapshot,
    k: u64,
    key: Seq<char>,
)
    requires
        is_refresh(editor, before, scope, sources, after),
        editor.windows[editor.active_window.0].documents.layout is Some,
    ensures
        ({
            let documents = editor.windows[editor.active_window.0].documents;
            let layout = documents.layout->0;
            let split = layout.effective_split.0.0;
            let state = layout.view_states[split];
            let written = before.window.view_states;
            let survives = before.window.view_states_split == split && documents.buffers.contains_key(
                k,
            ) && written.contains_key(k) && written[k].contains_key(key);
            let kept = layout.view_states.contains_key(split) && state.keyed_states.contains_key(k)
                && state.keyed_states[k].plugin_state is Some;
            let values = state.keyed_states[k].plugin_state->0@;
            let seen = after@.window.view_states;
            &&& after.view_states_split == split
            &&& survives ==> seen.contains_key(k) && seen[k].contains_key(key) && seen[k][key]
                == written[k][key]
            &&& forall|i: int|
                #![trigger values[i]]
                !survives && kept && 0 <= i < values.len() && values[i].0@ == key && (forall|j: int|
                    0 <= j < i ==> (#[trigger] values[j]).0@ != key) ==> seen.contains_key(k)
                    && seen[k].contains_key(key) && seen[k][key] == values[i].1
            &&& seen.contains_key(k) && seen[k].contains_key(key) ==> survives || (kept && exists|
                i: int,
            |
                0 <= i < values.len() && (#[trigger] values[i]).0@ == key)
        }),
{
    let documents = editor.windows[editor.active_window.0].documents;
    let layout = documents.layout->0;
    let split = layout.effective_split.0.0;
    let state = layout.view_states[split];
    let kept_before = kept_view_states(
        before.window.view_states,
        before.window.view_states_split == split,
        documents.buffers,
    );
    let states = if layout.view_states.contains_key(split) {
        state.keyed_states
    } else {
        Map::empty()
    };
    assert(after@.window.view_states == merged_view_states(kept_before, states));
    let present = if kept_before.contains_key(k) {
        kept_before[k]
    } else {
        Map::empty()
    };
    if has_values(states, k) {
        let values = states[k].plugin_state->0@;
        a_refresh_keeps_what_a_plugin_has_written(present, values, key);
        assert forall|i: int|
            #![trigger values[i]]
            !present.contains_key(key) && 0 <= i < values.len() && values[i].0@ == key && (forall|
                j: int,
            |
                0 <= j < i ==> (#[trigger] values[j]).0@ != key) implies with_missing(
            present,
            values,
        ).contains_key(key) && with_missing(present, values)[key] == values[i].1 by {
            lemma_first_value_is_kept(present, values, key, i);
        }
    }
}

proof fn lemma_first_value_is_kept<V>(
    present: Map<Seq<char>, V>,
    values: Seq<(String, V)>,
    key: Seq<char>,
    i: int,
)
    requires
        !present.contains_key(key),
        0 <= i < values.len(),
        values[i].0@ == key,
        forall|j: int| 0 <= j < i ==> (#[trigger] values[j]).0@ != key,
    ensures
        with_missing(present, values).contains_key(key),
        with_missing(present, values)[key] == values[i].1,
    decreases values.len(),
{
    let rest = values.drop_last();
    if i < rest.len() {
        assert(rest[i] == values[i]);
        assert forall|j: int| 0 <= j < i implies (#[trigger] rest[j]).0@ != key by {
            assert(rest[j] == values[j]);
        }
        lemma_first_value_is_kept(present, rest, key, i);
    } else {
        a_refresh_keeps_what_a_plugin_has_written(present, rest, key);
        if with_missing(present, rest).contains_key(key) {
            let j = choose|j: int| 0 <= j < rest.len() && (#[trigger] rest[j]).0@ == key;
            assert(values[j].0@ == key);
        }
    }
}

/// A global value that no plugin has written yet is the one that the host keeps for
/// the plugin under that key.
pub proof fn a_refresh_brings_global_values_in(
    present: Map<Seq<char>, Map<Seq<char>, Arc<String>>>,
    state: GlobalState,
    key: Seq<char>,
    i: int,
)
    requires
        0 <= i < state.values@.len(),
        state.values@[i].0@ == key,
        forall|j: int| 0 <= j < i ==> (#[trigger] state.values@[j]).0@ != key,
        !(present.contains_key(state.plugin@) && present[state.plugin@].contains_key(key)),
    ensures
        ({
            let merged = merged_globals(present, seq![state]);
            &&& merged.contains_key(state.plugin@)
            &&& merged[state.plugin@].contains_key(key)
            &&& merged[state.plugin@][key] == state.values@[i].1
        }),
{
    let old = if present.contains_key(state.plugin@) {
        present[state.plugin@]
    } else {
        Map::empty()
    };
    lemma_first_value_is_kept(old, state.values@, key, i);
    assert(seq![state].drop_last() =~= Seq::<GlobalState>::empty());
    reveal_with_fuel(merged_globals, 2);
}

} // verus!
