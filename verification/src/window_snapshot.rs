//! What a snapshot shows of one window.
use std::collections::BTreeMap;
use std::sync::Arc;
use vstd::prelude::*;

use crate::buffer_text::get_line_number;
use crate::buffer_text::line_of;
use crate::buffer_text::range_bytes;
use crate::buffer_text::text_range;
use crate::documents::leaves_showing;
use crate::documents::BufferState;
use crate::documents::BufferViewState;
use crate::documents::Cursor;
use crate::documents::LayoutModel;
use crate::documents::Pane;
use crate::documents::SavedDiff;
use crate::documents::SplitLayout;
use crate::documents::ViewMode;
use crate::documents::ViewState;
use crate::documents::ViewStateModel;
use crate::documents::Viewport;
use crate::ids::BufferId;
use crate::lists::first_match;
use crate::lists::is_sorted_domain;
use crate::lists::lemma_first_match_found;
use crate::lists::lemma_first_match_none;
use crate::lists::lemma_sorted_members;
use crate::lists::sorted_keys;
use crate::lists::sorted_members;
use crate::snapshot::info_models;
use crate::snapshot::macro_snapshot_models;
use crate::snapshot::view_state_texts;
use crate::snapshot::BufferInfo;
use crate::snapshot::BufferInfoModel;
use crate::snapshot::CursorInfo;
use crate::snapshot::EditorStateSnapshot;
use crate::snapshot::GrammarCatalog;
use crate::snapshot::MacroModel;
use crate::snapshot::MacroSnapshot;
use crate::snapshot::Selection;
use crate::snapshot::SnapshotModel;
use crate::snapshot::SplitSnapshot;
use crate::snapshot::ViewportInfo;
use crate::snapshot::WindowPart;
use crate::text_map::TextMap;
use crate::window::DocumentsModel;
use crate::window::Window;
use crate::window::WindowModel;

verus! {

/// The keys of a map in increasing order.
pub open spec fn key_order<V>(map: Map<u64, V>) -> Seq<u64> {
    sorted_members(|k: u64| map.contains_key(k))
}

/// The selection of a cursor, its smaller end first.
pub open spec fn selection_of(cursor: Cursor) -> Option<Selection> {
    match cursor.anchor {
        Some(anchor) => Some(
            if anchor < cursor.position {
                Selection { start: anchor, end: cursor.position }
            } else {
                Selection { start: cursor.position, end: anchor }
            },
        ),
        None => None,
    }
}

/// The selection of a cursor, its smaller end first.
fn selection_range(cursor: Cursor) -> (selection: Option<Selection>)
    ensures
        selection == selection_of(cursor),
{
    match cursor.anchor {
        Some(anchor) => Some(
            if anchor < cursor.position {
                Selection { start: anchor, end: cursor.position }
            } else {
                Selection { start: cursor.position, end: anchor }
            },
        ),
        None => None,
    }
}

impl DocumentsModel {
    /// The line of an offset, where the buffer is there and has a line index.
    pub open spec fn line_at(self, buffer: BufferId, offset: u64) -> Option<u64> {
        if self.buffers.contains_key(buffer.0) && self.buffers[buffer.0].content.line_count is Some {
            Some(line_of(self.buffers[buffer.0].content.bytes@, offset) as u64)
        } else {
            None
        }
    }

    /// What plugins see of a cursor in `buffer`.
    pub open spec fn cursor_info(self, buffer: BufferId, cursor: Cursor) -> CursorInfo {
        CursorInfo {
            position: cursor.position,
            selection: selection_of(cursor),
            line: self.line_at(buffer, cursor.position),
        }
    }

    /// What plugins see of a viewport on `buffer`.
    pub open spec fn viewport_info(self, buffer: BufferId, viewport: Viewport) -> ViewportInfo {
        ViewportInfo {
            top_byte: viewport.top_byte,
            top_line: self.line_at(buffer, viewport.top_byte),
            left_column: viewport.left_column,
            width: viewport.width,
            height: viewport.height,
        }
    }

    /// What plugins see of the laid out splits, in visual order.
    pub open spec fn split_snapshots(self, layout: LayoutModel, panes: Seq<Pane>) -> Seq<
        SplitSnapshot,
    >
        decreases panes.len(),
    {
        if panes.len() == 0 {
            Seq::empty()
        } else {
            let shown = self.split_snapshots(layout, panes.drop_last());
            let pane = panes.last();
            if layout.view_states.contains_key(pane.leaf.0.0) {
                let state = layout.view_states[pane.leaf.0.0];
                shown.push(
                    SplitSnapshot {
                        split_id: pane.leaf,
                        buffer_id: state.active_buffer,
                        label: pane.label,
                        x: pane.rect.x,
                        y: pane.rect.y,
                        width: pane.rect.width,
                        height: pane.rect.height,
                        viewport: self.viewport_info(state.active_buffer, state.viewport),
                    },
                )
            } else {
                shown
            }
        }
    }

    /// Whether a buffer is kept out of the tab bar.
    pub open spec fn is_hidden(self, buffer: u64) -> bool {
        self.metadata.contains_key(buffer) && self.metadata[buffer].hidden_from_tabs
    }
}

/// What a split remembers of a buffer.
pub open spec fn remembered(state: ViewStateModel, buffer: u64) -> Option<BufferViewState> {
    if state.keyed_states.contains_key(buffer) {
        Some(state.memory_of(BufferId(buffer)))
    } else {
        None
    }
}

/// What the split `split` remembers of a buffer.
pub open spec fn remembered_in(layout: LayoutModel, split: u64, buffer: u64) -> Option<
    BufferViewState,
> {
    if layout.view_states.contains_key(split) {
        remembered(layout.view_states[split], buffer)
    } else {
        None
    }
}

/// Whether a split shows the cursor of a buffer: it remembers the buffer, and
/// is not the host of a group where the buffer is a panel of one.
pub open spec fn owns_cursor(documents: DocumentsModel, layout: LayoutModel, buffer: u64) -> spec_fn(
    u64,
) -> bool {
    |split: u64|
        remembered_in(layout, split, buffer) is Some && !(documents.is_hidden(buffer)
            && documents.groups.contains_key(split))
}

/// The position of the cursor in a buffer, which is the start where no split
/// remembers one.
pub open spec fn cursor_position(documents: DocumentsModel, layout: LayoutModel, buffer: u64) -> u64 {
    match first_match(key_order(layout.view_states), owns_cursor(documents, layout, buffer)) {
        Some(split) => remembered_in(layout, split, buffer)->0.cursor.position,
        None => 0,
    }
}

/// Whether any split lays a buffer out as a page.
pub open spec fn composes(layout: LayoutModel, buffer: u64) -> bool {
    exists|split: u64|
        #![trigger remembered_in(layout, split, buffer)]
        remembered_in(layout, split, buffer) is Some && remembered_in(
            layout,
            split,
            buffer,
        )->0.view_mode is PageView
}

/// `values` where they are new, with those that were there.
pub open spec fn with_missing<V>(present: Map<Seq<char>, V>, values: Seq<(String, V)>) -> Map<
    Seq<char>,
    V,
>
    decreases values.len(),
{
    if values.len() == 0 {
        present
    } else {
        let before = with_missing(present, values.drop_last());
        if before.contains_key(values.last().0@) {
            before
        } else {
            before.insert(values.last().0@, values.last().1)
        }
    }
}

/// The values of plugins that stay in view: none where another split is shown,
/// and only those of open buffers.
pub open spec fn kept_view_states(
    before: Map<u64, Map<Seq<char>, String>>,
    same_split: bool,
    open: Map<u64, BufferState>,
) -> Map<u64, Map<Seq<char>, String>> {
    if same_split {
        Map::new(|k: u64| before.contains_key(k) && open.contains_key(k), |k: u64| before[k])
    } else {
        Map::empty()
    }
}

/// Whether a split keeps values of plugins for a buffer.
pub open spec fn has_values(states: Map<u64, Arc<BufferViewState>>, buffer: u64) -> bool {
    states.contains_key(buffer) && states[buffer].plugin_state is Some
        && states[buffer].plugin_state->0@.len() > 0
}

/// The values of plugins, with those that the split keeps where a plugin has
/// not written a newer one.
pub open spec fn merged_view_states(
    kept: Map<u64, Map<Seq<char>, String>>,
    states: Map<u64, Arc<BufferViewState>>,
) -> Map<u64, Map<Seq<char>, String>> {
    Map::new(
        |k: u64| kept.contains_key(k) || has_values(states, k),
        |k: u64|
            {
                let present = if kept.contains_key(k) {
                    kept[k]
                } else {
                    Map::empty()
                };
                if has_values(states, k) {
                    with_missing(present, states[k].plugin_state->0@)
                } else {
                    present
                }
            },
    )
}

impl WindowModel {
    /// What plugins see of a buffer.
    pub open spec fn buffer_info(self, layout: LayoutModel, buffer: u64) -> BufferInfoModel {
        let content = self.documents.buffers[buffer].content;
        let metadata = self.documents.metadata;
        let view = remembered_in(layout, layout.active_split.0.0, buffer);
        BufferInfoModel {
            id: BufferId(buffer),
            path: content.path,
            name: if metadata.contains_key(buffer) {
                metadata[buffer].display_name@
            } else {
                Seq::empty()
            },
            modified: content.modified,
            length: content.bytes@.len() as u64,
            line_count: content.line_count,
            is_virtual: metadata.contains_key(buffer) && metadata[buffer].is_virtual,
            is_terminal: self.terminals.bindings.contains_key(buffer),
            editing_disabled: self.documents.buffers[buffer].flags.editing_disabled,
            view_mode: match view {
                Some(view) => view.view_mode,
                None => ViewMode::Source,
            },
            is_composing_in_any_split: composes(layout, buffer),
            compose_width: match view {
                Some(view) => view.compose_width,
                None => None,
            },
            language: content.language,
            is_preview: metadata.contains_key(buffer) && metadata[buffer].is_preview,
            splits: leaves_showing(layout.panes, BufferId(buffer)),
        }
    }

    /// The recorded macros by their registers.
    pub open spec fn macro_list(self) -> Seq<MacroModel> {
        key_order(self.ui.macros).map_values(
            |key: u64| MacroModel { register: key, steps: self.ui.macros[key] },
        )
    }

    /// What a snapshot shows of this window, where it showed `before`.
    pub open spec fn populated(
        self,
        layout: LayoutModel,
        before: WindowPart,
        grammars: GrammarCatalog,
    ) -> WindowPart {
        let documents = self.documents;
        let active = documents.active_buffer;
        let split = layout.effective_split.0.0;
        let shown = layout.view_states.contains_key(split);
        let state = layout.view_states[split];
        let selection = selection_of(state.cursor);
        let fresh = before.grammar_generation != grammars.generation;
        WindowPart {
            grammar_generation: grammars.generation,
            available_grammars: if fresh {
                grammars.grammars@
            } else {
                before.available_grammars
            },
            active_buffer: active,
            active_split: layout.active_split,
            macros: self.macro_list(),
            buffers: documents.buffers.map_entries(
                |k: u64, b: BufferState| self.buffer_info(layout, k),
            ),
            saved_diffs: documents.buffers.map_values(|b: BufferState| b.content.saved_diff),
            cursor_positions: documents.buffers.map_entries(
                |k: u64, b: BufferState| cursor_position(documents, layout, k),
            ),
            text_properties: Map::new(
                |k: u64|
                    documents.buffers.contains_key(k)
                        && documents.buffers[k].content.text_properties@.len() > 0,
                |k: u64| documents.buffers[k].content.text_properties,
            ),
            primary_cursor: if shown {
                Some(documents.cursor_info(active, state.cursor))
            } else {
                None
            },
            primary_cursor_line: if shown {
                Some(
                    if documents.buffers.contains_key(active.0) {
                        documents.buffers[active.0].content.primary_cursor_line
                    } else {
                        0
                    },
                )
            } else {
                None
            },
            all_cursors: if shown {
                state.cursors().map_values(
                    |c: Cursor| documents.cursor_info(active, c),
                )
            } else {
                Seq::empty()
            },
            selected_text: if !shown {
                None
            } else if selection is Some && documents.buffers.contains_key(active.0) {
                Some(
                    range_bytes(
                        documents.buffers[active.0].content.bytes@,
                        selection->0.start,
                        selection->0.end,
                    ),
                )
            } else {
                before.selected_text
            },
            viewport: if shown {
                Some(documents.viewport_info(active, state.viewport))
            } else {
                None
            },
            splits: documents.split_snapshots(layout, layout.panes),
            session_state: self.plugin_state,
            diagnostics: self.diagnostics,
            folding_ranges: self.folding_ranges,
            editor_mode: self.ui.editor_mode,
            has_active_search: self.ui.search_active,
            view_states: merged_view_states(
                kept_view_states(
                    before.view_states,
                    before.view_states_split == split,
                    documents.buffers,
                ),
                if shown {
                    state.keyed_states
                } else {
                    Map::empty()
                },
            ),
            view_states_split: split,
        }
    }
}

/// Puts `values` into a map where they are new.
pub(crate) fn add_missing(present: &mut TextMap<String>, values: &Vec<(String, String)>)
    ensures
        final(present)@ == with_missing(old(present)@, values@),
{
    let ghost before = present@;
    let mut at: usize = 0;
    proof {
        assert(values@.take(0) =~= Seq::<(String, String)>::empty());
    }
    while at < values.len()
        invariant
            at <= values.len(),
            present@ == with_missing(before, values@.take(at as int)),
        decreases values.len() - at,
    {
        proof {
            assert(values@.take(at + 1).drop_last() =~= values@.take(at as int));
            assert(values@.take(at + 1).last() == values@[at as int]);
        }
        if !present.contains_key(values[at].0.as_str()) {
            present.insert(values[at].0.clone(), values[at].1.clone());
        }
        at = at + 1;
    }
    proof {
        assert(values@.take(values@.len() as int) =~= values@);
    }
}

impl SplitLayout {
    /// What the split `split` remembers of a buffer, and the cursor.
    fn buffer_state(&self, split: u64, buffer: u64) -> (state: Option<
        (&Arc<BufferViewState>, Cursor),
    >)
        ensures
            match state {
                Some((kept, cursor)) => {
                    &&& remembered_in(self@, split, buffer) is Some
                    &&& remembered_in(self@, split, buffer)->0.view_mode == kept.view_mode
                    &&& remembered_in(self@, split, buffer)->0.compose_width == kept.compose_width
                    &&& remembered_in(self@, split, buffer)->0.cursor == cursor
                },
                None => remembered_in(self@, split, buffer) is None,
            },
    {
        match self.view_states.get(&split) {
            Some(state) => match state.keyed_states.get(&buffer) {
                Some(kept) => if state.active_buffer.0 == buffer {
                    Some((kept, state.cursor))
                } else {
                    Some((kept, kept.cursor))
                },
                None => None,
            },
            None => None,
        }
    }

    /// Whether any split lays a buffer out as a page.
    fn composes_anywhere(&self, splits: &Vec<u64>, buffer: u64) -> (composing: bool)
        requires
            is_sorted_domain(splits@, self@.view_states),
        ensures
            composing == composes(self@, buffer),
    {
        let mut at: usize = 0;
        while at < splits.len()
            invariant
                at <= splits.len(),
                forall|i: int|
                    #![trigger splits@[i]]
                    0 <= i < at ==> !(remembered_in(self@, splits@[i], buffer) is Some
                        && remembered_in(self@, splits@[i], buffer)->0.view_mode is PageView),
            decreases splits.len() - at,
        {
            if let Some((state, _)) = self.buffer_state(splits[at], buffer) {
                if state.view_mode == ViewMode::PageView {
                    return true;
                }
            }
            at = at + 1;
        }
        proof {
            assert forall|split: u64|
                #![trigger remembered_in(self@, split, buffer)]
                !(remembered_in(self@, split, buffer) is Some && remembered_in(
                    self@,
                    split,
                    buffer,
                )->0.view_mode is PageView) by {
                if remembered_in(self@, split, buffer) is Some {
                    assert(splits@.contains(split));
                    let i = splits@.index_of(split);
                    assert(splits@[i] == split);
                }
            }
        }
        false
    }
}

impl Window {
    /// The line of an offset, where the buffer is there and has a line index.
    fn line_at(&self, buffer: BufferId, offset: u64) -> (line: Option<u64>)
        ensures
            line == self@.documents.line_at(buffer, offset),
    {
        match self.documents.buffers.get(&buffer.0) {
            Some(state) => if state.content.line_count.is_some() {
                Some(get_line_number(&state.content.bytes, offset))
            } else {
                None
            },
            None => None,
        }
    }

    /// What plugins see of a cursor in `buffer`.
    fn cursor_info(&self, buffer: BufferId, cursor: Cursor) -> (info: CursorInfo)
        ensures
            info == self@.documents.cursor_info(buffer, cursor),
    {
        CursorInfo {
            position: cursor.position,
            selection: selection_range(cursor),
            line: self.line_at(buffer, cursor.position),
        }
    }

    /// What plugins see of a viewport on `buffer`.
    fn viewport_info(&self, buffer: BufferId, viewport: Viewport) -> (info: ViewportInfo)
        ensures
            info == self@.documents.viewport_info(buffer, viewport),
    {
        ViewportInfo {
            top_byte: viewport.top_byte,
            top_line: self.line_at(buffer, viewport.top_byte),
            left_column: viewport.left_column,
            width: viewport.width,
            height: viewport.height,
        }
    }

    /// What plugins see of a buffer.
    fn buffer_info(&self, layout: &SplitLayout, splits: &Vec<u64>, buffer: u64, state: &BufferState) -> (info:
        BufferInfo)
        requires
            is_sorted_domain(splits@, layout@.view_states),
            self@.documents.buffers.contains_key(buffer),
            *state == self@.documents.buffers[buffer],
        ensures
            info@ == self@.buffer_info(layout@, buffer),
    {
        let metadata = self.documents.metadata.get(&buffer);
        let view = layout.buffer_state(layout.active_split.0.0, buffer);
        let (view_mode, compose_width) = match view {
            Some((view, _)) => (view.view_mode, view.compose_width),
            None => (ViewMode::Source, None),
        };
        let (name, is_virtual, is_preview) = match metadata {
            Some(metadata) => (
                metadata.display_name.clone(),
                metadata.is_virtual,
                metadata.is_preview,
            ),
            None => (String::new(), false, false),
        };
        BufferInfo {
            id: BufferId(buffer),
            path: state.content.path.clone(),
            name,
            modified: state.content.modified,
            length: state.content.bytes.len() as u64,
            line_count: state.content.line_count,
            is_virtual,
            is_terminal: self.terminals.bindings.contains_key(&buffer),
            editing_disabled: state.flags.editing_disabled,
            view_mode,
            is_composing_in_any_split: layout.composes_anywhere(splits, buffer),
            compose_width,
            language: state.content.language.clone(),
            is_preview,
            splits: layout.splits_for_buffer(BufferId(buffer)),
        }
    }

    /// The position of the cursor in a buffer.
    fn find_cursor(&self, layout: &SplitLayout, splits: &Vec<u64>, buffer: u64) -> (position: u64)
        requires
            splits@ == key_order(layout@.view_states),
        ensures
            position == cursor_position(self@.documents, layout@, buffer),
    {
        let is_hidden = match self.documents.metadata.get(&buffer) {
            Some(metadata) => metadata.hidden_from_tabs,
            None => false,
        };
        let ghost wanted = owns_cursor(self@.documents, layout@, buffer);
        let mut at: usize = 0;
        while at < splits.len()
            invariant
                at <= splits.len(),
                splits@ == key_order(layout@.view_states),
                is_hidden == self@.documents.is_hidden(buffer),
                wanted == owns_cursor(self@.documents, layout@, buffer),
                forall|i: int| 0 <= i < at ==> !wanted(#[trigger] splits@[i]),
            decreases splits.len() - at,
        {
            let split = splits[at];
            if let Some((_, cursor)) = layout.buffer_state(split, buffer) {
                if !(is_hidden && self.documents.groups.contains_key(&split)) {
                    proof {
                        lemma_first_match_found(splits@, wanted, at as int);
                    }
                    return cursor.position;
                }
            }
            at = at + 1;
        }
        proof {
            lemma_first_match_none(splits@, wanted);
        }
        0
    }

    /// What plugins see of the laid out splits.
    fn split_snapshots(&self, layout: &SplitLayout) -> (splits: Vec<SplitSnapshot>)
        ensures
            splits@ == self@.documents.split_snapshots(layout@, layout@.panes),
    {
        let mut splits: Vec<SplitSnapshot> = Vec::new();
        let mut at: usize = 0;
        proof {
            assert(layout.panes@.take(0) =~= Seq::<Pane>::empty());
        }
        while at < layout.panes.len()
            invariant
                at <= layout.panes.len(),
                splits@ == self@.documents.split_snapshots(layout@, layout@.panes.take(at as int)),
            decreases layout.panes.len() - at,
        {
            proof {
                assert(layout@.panes.take(at + 1).drop_last() =~= layout@.panes.take(at as int));
                assert(layout@.panes.take(at + 1).last() == layout@.panes[at as int]);
            }
            let pane = &layout.panes[at];
            if let Some(state) = layout.view_states.get(&pane.leaf.0.0) {
                splits.push(
                    SplitSnapshot {
                        split_id: pane.leaf,
                        buffer_id: state.active_buffer,
                        label: pane.label.clone(),
                        x: pane.rect.x,
                        y: pane.rect.y,
                        width: pane.rect.width,
                        height: pane.rect.height,
                        viewport: self.viewport_info(state.active_buffer, state.viewport),
                    },
                );
            }
            at = at + 1;
        }
        proof {
            assert(layout@.panes.take(layout@.panes.len() as int) =~= layout@.panes);
        }
        splits
    }

    /// The recorded macros by their registers.
    fn list_macros(&self) -> (macros: Vec<MacroSnapshot>)
        ensures
            macro_snapshot_models(macros@) == self@.macro_list(),
    {
        let keys = sorted_keys(&self.ui.macros);
        proof {
            lemma_sorted_members(keys@, |k: u64| self@.ui.macros.contains_key(k));
        }
        let mut macros: Vec<MacroSnapshot> = Vec::new();
        let mut at: usize = 0;
        while at < keys.len()
            invariant
                at <= keys.len(),
                keys@ == key_order(self@.ui.macros),
                is_sorted_domain(keys@, self.ui.macros@),
                macro_snapshot_models(macros@) =~= self@.macro_list().take(at as int),
            decreases keys.len() - at,
        {
            let key = keys[at];
            proof {
                assert(keys@.contains(key));
            }
            let ghost before = macros@;
            if let Some(steps) = self.ui.macros.get(&key) {
                macros.push(MacroSnapshot { register: key, steps: steps.clone() });
            }
            proof {
                let listed = self@.macro_list();
                assert(self.ui.macros@.contains_key(key));
                assert(macros@ == before.push(macros@.last()));
                assert(self@.ui.macros[key] == self.ui.macros@[key]@);
                assert(macros@.last()@ == listed[at as int]);
                assert(macro_snapshot_models(macros@) =~= macro_snapshot_models(before).push(
                    macros@.last()@,
                ));
                assert(listed.take(at + 1) =~= listed.take(at as int).push(listed[at as int]));
            }
            at = at + 1;
        }
        proof {
            assert(self@.macro_list().take(keys@.len() as int) =~= self@.macro_list());
        }
        macros
    }

    /// What plugins see of all cursors of a split that shows the active
    /// buffer.
    fn list_cursors(&self, state: &ViewState) -> (cursors: Vec<CursorInfo>)
        ensures
            cursors@ == state@.cursors().map_values(
                |c: Cursor| self@.documents.cursor_info(self@.documents.active_buffer, c),
            ),
    {
        let active = self.documents.active_buffer;
        let ghost all = state@.cursors().map_values(
            |c: Cursor| self@.documents.cursor_info(self@.documents.active_buffer, c),
        );
        let mut cursors: Vec<CursorInfo> = Vec::new();
        cursors.push(self.cursor_info(active, state.cursor));
        if let Some(others) = &state.other_cursors {
            let mut at: usize = 0;
            while at < others.len()
                invariant
                    at <= others.len(),
                    active == self@.documents.active_buffer,
                    state.other_cursors == Some(*others),
                    all == state@.cursors().map_values(
                        |c: Cursor| self@.documents.cursor_info(self@.documents.active_buffer, c),
                    ),
                    cursors@ =~= all.take(at + 1),
                decreases others.len() - at,
            {
                cursors.push(self.cursor_info(active, others[at]));
                at = at + 1;
            }
        }
        proof {
            assert(all.take(all.len() as int) =~= all);
        }
        cursors
    }
}

/// What a snapshot shows of the buffers of a window.
struct BufferPart {
    infos: BTreeMap<u64, BufferInfo>,
    saved_diffs: BTreeMap<u64, Arc<SavedDiff>>,
    cursor_positions: BTreeMap<u64, u64>,
    text_properties: BTreeMap<u64, Arc<Vec<String>>>,
}

/// A list is a part of the next longer one.
pub proof fn lemma_take_contains(keys: Seq<u64>, at: int)
    requires
        0 <= at < keys.len(),
    ensures
        forall|k: u64| #[trigger]
            keys.take(at + 1).contains(k) <==> k == keys[at] || keys.take(at).contains(k),
{
    let done = keys.take(at);
    let next = keys.take(at + 1);
    assert(next =~= done.push(keys[at]));
    assert forall|k: u64| #[trigger] next.contains(k) <==> k == keys[at] || done.contains(k) by {
        if next.contains(k) {
            let i = next.index_of(k);
            if i < done.len() {
                assert(done[i] == k);
            }
        }
        if done.contains(k) {
            let i = done.index_of(k);
            assert(next[i] == k);
        }
        assert(next[done.len() as int] == keys[at]);
    }
}

impl Window {
    /// What plugins see of all buffers.
    fn list_buffers(&self, layout: &SplitLayout) -> (part: BufferPart)
        ensures
            info_models(part.infos@) == self@.documents.buffers.map_entries(
                |k: u64, b: BufferState| self@.buffer_info(layout@, k),
            ),
            part.saved_diffs@ == self@.documents.buffers.map_values(
                |b: BufferState| b.content.saved_diff,
            ),
            part.cursor_positions@ == self@.documents.buffers.map_entries(
                |k: u64, b: BufferState| cursor_position(self@.documents, layout@, k),
            ),
            part.text_properties@ == Map::new(
                |k: u64|
                    self@.documents.buffers.contains_key(k)
                        && self@.documents.buffers[k].content.text_properties@.len() > 0,
                |k: u64| self@.documents.buffers[k].content.text_properties,
            ),
    {
        let splits = sorted_keys(&layout.view_states);
        let keys = sorted_keys(&self.documents.buffers);
        proof {
            lemma_sorted_members(splits@, |k: u64| layout@.view_states.contains_key(k));
            assert(keys@.take(0) =~= Seq::<u64>::empty());
        }
        let mut infos: BTreeMap<u64, BufferInfo> = BTreeMap::new();
        let mut saved_diffs: BTreeMap<u64, Arc<SavedDiff>> = BTreeMap::new();
        let mut cursor_positions: BTreeMap<u64, u64> = BTreeMap::new();
        let mut text_properties: BTreeMap<u64, Arc<Vec<String>>> = BTreeMap::new();
        let ghost buffers = self@.documents.buffers;
        let mut at: usize = 0;
        while at < keys.len()
            invariant
                at <= keys.len(),
                buffers == self@.documents.buffers,
                is_sorted_domain(keys@, buffers),
                is_sorted_domain(splits@, layout@.view_states),
                splits@ == key_order(layout@.view_states),
                forall|k: u64| #[trigger]
                    infos@.contains_key(k) <==> keys@.take(at as int).contains(k),
                forall|k: u64| #[trigger]
                    infos@.contains_key(k) ==> infos@[k]@ == self@.buffer_info(layout@, k),
                forall|k: u64| #[trigger]
                    saved_diffs@.contains_key(k) <==> keys@.take(at as int).contains(k),
                forall|k: u64| #[trigger]
                    saved_diffs@.contains_key(k) ==> saved_diffs@[k]
                        == buffers[k].content.saved_diff,
                forall|k: u64| #[trigger]
                    cursor_positions@.contains_key(k) <==> keys@.take(at as int).contains(k),
                forall|k: u64| #[trigger]
                    cursor_positions@.contains_key(k) ==> cursor_positions@[k] == cursor_position(
                        self@.documents,
                        layout@,
                        k,
                    ),
                forall|k: u64| #[trigger]
                    text_properties@.contains_key(k) <==> keys@.take(at as int).contains(k)
                        && buffers[k].content.text_properties@.len() > 0,
                forall|k: u64| #[trigger]
                    text_properties@.contains_key(k) ==> text_properties@[k]
                        == buffers[k].content.text_properties,
            decreases keys.len() - at,
        {
            let key = keys[at];
            proof {
                assert(keys@.contains(key));
                lemma_take_contains(keys@, at as int);
            }
            if let Some(state) = self.documents.buffers.get(&key) {
                let info = self.buffer_info(layout, &splits, key, state);
                infos.insert(key, info);
                saved_diffs.insert(key, state.content.saved_diff.clone());
                let position: u64 = self.find_cursor(layout, &splits, key);
                cursor_positions.insert(key, position);
                if state.content.text_properties.len() > 0 {
                    text_properties.insert(key, state.content.text_properties.clone());
                }
            }
            at = at + 1;
        }
        proof {
            assert(keys@.take(keys@.len() as int) =~= keys@);
            assert(info_models(infos@) =~= buffers.map_entries(
                |k: u64, b: BufferState| self@.buffer_info(layout@, k),
            ));
            assert(saved_diffs@ =~= buffers.map_values(|b: BufferState| b.content.saved_diff));
            assert(cursor_positions@ =~= buffers.map_entries(
                |k: u64, b: BufferState| cursor_position(self@.documents, layout@, k),
            ));
            assert(text_properties@ =~= Map::new(
                |k: u64|
                    buffers.contains_key(k) && buffers[k].content.text_properties@.len() > 0,
                |k: u64| buffers[k].content.text_properties,
            ));
        }
        BufferPart { infos, saved_diffs, cursor_positions, text_properties }
    }
}

/// Drops the values of buffers that are not open.
fn keep_open(states: &mut BTreeMap<u64, TextMap<String>>, open: &BTreeMap<u64, BufferState>)
    ensures
        view_state_texts(final(states)@) == kept_view_states(
            view_state_texts(old(states)@),
            true,
            open@,
        ),
{
    let ghost before = states@;
    let keys = sorted_keys(states);
    let mut at: usize = 0;
    proof {
        assert(keys@.take(0) =~= Seq::<u64>::empty());
    }
    while at < keys.len()
        invariant
            at <= keys.len(),
            is_sorted_domain(keys@, before),
            forall|k: u64| #[trigger]
                states@.contains_key(k) <==> before.contains_key(k) && (open@.contains_key(k)
                    || !keys@.take(at as int).contains(k)),
            forall|k: u64| #[trigger] states@.contains_key(k) ==> states@[k] == before[k],
        decreases keys.len() - at,
    {
        let key = keys[at];
        proof {
            lemma_take_contains(keys@, at as int);
        }
        if !open.contains_key(&key) {
            states.remove(&key);
        }
        at = at + 1;
    }
    proof {
        assert(keys@.take(keys@.len() as int) =~= keys@);
        assert(view_state_texts(states@) =~= kept_view_states(
            view_state_texts(before),
            true,
            open@,
        ));
    }
}

/// Adds the values that a split keeps, where a plugin has not written a newer
/// one.
fn merge_view_states(
    states: &mut BTreeMap<u64, TextMap<String>>,
    kept: &BTreeMap<u64, Arc<BufferViewState>>,
)
    ensures
        view_state_texts(final(states)@) == merged_view_states(
            view_state_texts(old(states)@),
            kept@,
        ),
{
    let ghost before = view_state_texts(states@);
    let ghost merged = merged_view_states(before, kept@);
    let keys = sorted_keys(kept);
    let mut at: usize = 0;
    proof {
        assert(keys@.take(0) =~= Seq::<u64>::empty());
    }
    while at < keys.len()
        invariant
            at <= keys.len(),
            is_sorted_domain(keys@, kept@),
            merged == merged_view_states(before, kept@),
            forall|k: u64| #[trigger]
                states@.contains_key(k) <==> before.contains_key(k) || (keys@.take(
                    at as int,
                ).contains(k) && has_values(kept@, k)),
            forall|k: u64| #[trigger]
                states@.contains_key(k) ==> states@[k]@ == if keys@.take(at as int).contains(k) {
                    merged[k]
                } else {
                    before[k]
                },
        decreases keys.len() - at,
    {
        let key = keys[at];
        proof {
            assert(keys@.contains(key));
            lemma_take_contains(keys@, at as int);
            assert(!keys@.take(at as int).contains(key)) by {
                if keys@.take(at as int).contains(key) {
                    let i = keys@.take(at as int).index_of(key);
                    assert(keys@[i] == key);
                }
            }
        }
        if let Some(state) = kept.get(&key) {
            if let Some(stored) = &state.plugin_state {
                if stored.len() > 0 {
                    let mut values = match states.remove(&key) {
                        Some(values) => values,
                        None => TextMap::new(),
                    };
                    add_missing(&mut values, stored);
                    states.insert(key, values);
                }
            }
        }
        at = at + 1;
    }
    proof {
        assert(keys@.take(keys@.len() as int) =~= keys@);
        assert(view_state_texts(states@) =~= merged);
    }
}

impl Window {
    /// Shows this window in a snapshot.
    pub fn populate_plugin_state_snapshot(
        &self,
        snapshot: &mut EditorStateSnapshot,
        grammars: &GrammarCatalog,
    )
        requires
            self@.documents.layout is Some,
        ensures
            final(snapshot)@ == (SnapshotModel {
                window: self@.populated(
                    self@.documents.layout->0,
                    old(snapshot)@.window,
                    *grammars,
                ),
                ..old(snapshot)@
            }),
    {
        if snapshot.grammar_generation != grammars.generation {
            snapshot.available_grammars = grammars.grammars.clone();
            snapshot.grammar_generation = grammars.generation;
        }
        snapshot.macros = self.list_macros();
        if let Some(layout) = &self.documents.layout {
            self.show_layout(layout, snapshot);
        }
        snapshot.session_state = self.plugin_state.clone();
        snapshot.diagnostics = self.diagnostics.clone();
        snapshot.folding_ranges = self.folding_ranges.clone();
        snapshot.editor_mode = self.ui.editor_mode.clone();
        snapshot.has_active_search = self.ui.search_active;
    }

    /// Shows the buffers and splits of this window in a snapshot.
    fn show_layout(&self, layout: &SplitLayout, snapshot: &mut EditorStateSnapshot)
        requires
            self@.documents.layout == Some(layout@),
        ensures
            ({
                let old_part = old(snapshot)@.window;
                let made = self@.populated(
                    layout@,
                    old_part,
                    GrammarCatalog {
                        generation: old_part.grammar_generation,
                        grammars: old(snapshot).available_grammars,
                    },
                );
                final(snapshot)@ == (SnapshotModel {
                    window: WindowPart {
                        macros: old_part.macros,
                        session_state: old_part.session_state,
                        diagnostics: old_part.diagnostics,
                        folding_ranges: old_part.folding_ranges,
                        editor_mode: old_part.editor_mode,
                        has_active_search: old_part.has_active_search,
                        ..made
                    },
                    ..old(snapshot)@
                })
            }),
    {
        let active = self.documents.active_buffer;
        snapshot.active_buffer = active;
        snapshot.active_split = layout.active_split;
        let part = self.list_buffers(layout);
        snapshot.buffers = part.infos;
        snapshot.saved_diffs = part.saved_diffs;
        snapshot.cursor_positions = part.cursor_positions;
        snapshot.text_properties = part.text_properties;
        let split = layout.effective_split.0.0;
        if snapshot.view_states_split != split {
            snapshot.view_states = BTreeMap::new();
            snapshot.view_states_split = split;
        }
        let ghost before = view_state_texts(snapshot.view_states@);
        keep_open(&mut snapshot.view_states, &self.documents.buffers);
        let ghost kept = view_state_texts(snapshot.view_states@);
        match layout.view_states.get(&split) {
            Some(state) => {
                snapshot.primary_cursor = Some(self.cursor_info(active, state.cursor));
                snapshot.primary_cursor_line = match self.documents.buffers.get(&active.0) {
                    Some(buffer) => Some(buffer.content.primary_cursor_line),
                    None => Some(0),
                };
                snapshot.all_cursors = self.list_cursors(state);
                if let Some(selection) = selection_range(state.cursor) {
                    if let Some(buffer) = self.documents.buffers.get(&active.0) {
                        snapshot.selected_text = Some(
                            text_range(&buffer.content.bytes, selection.start, selection.end),
                        );
                    }
                }
                snapshot.viewport = Some(self.viewport_info(active, state.viewport));
                merge_view_states(&mut snapshot.view_states, &state.keyed_states);
            },
            None => {
                snapshot.primary_cursor = None;
                snapshot.primary_cursor_line = None;
                snapshot.all_cursors = Vec::new();
                snapshot.viewport = None;
                snapshot.selected_text = None;
                proof {
                    assert(merged_view_states(kept, Map::empty()) =~= kept);
                }
            },
        }
        snapshot.splits = self.split_snapshots(layout);
        proof {
            let old_part = old(snapshot)@.window;
            if old_part.view_states_split != split {
                assert(kept =~= Map::empty());
            }
            let made = self@.populated(
                layout@,
                old_part,
                GrammarCatalog {
                    generation: old_part.grammar_generation,
                    grammars: old(snapshot).available_grammars,
                },
            );
            assert(snapshot@.window.view_states == made.view_states);
            assert(snapshot@.window.all_cursors =~= made.all_cursors);
        }
    }
}

} // verus!
