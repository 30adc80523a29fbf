//! The buffers of a window and the split layout that shows them.
use std::collections::BTreeMap;
use std::sync::Arc;
use vstd::prelude::*;

use crate::geometry::Rect;
use crate::ids::BufferId;
use crate::ids::LeafId;
use crate::ids::SplitId;
use crate::lists::retain_where;

verus! {

/// How a buffer is laid out in a split.
#[derive(Clone, Copy, Debug, PartialEq, Eq, Structural)]
pub enum ViewMode {
    Source,
    PageView,
}

/// What a tab of a split stands for.
#[derive(Clone, Copy, Debug, PartialEq, Eq, Structural)]
pub enum TabTarget {
    Buffer(BufferId),
    /// A group of panels, by its own leaf.
    Group(LeafId),
}

/// Who is told when a popup is confirmed or cancelled.
#[derive(Debug)]
pub enum PopupResolver {
    /// The built-in list of language servers.
    LspStatus,
    /// The plugin that raised it, by the popup's id.
    PluginAction { popup_id: String },
    Other,
}

/// One row of a popup.
#[derive(Debug)]
pub struct PopupItem {
    pub text: String,
    pub data: String,
}

/// A popup with a list of actions.
#[derive(Debug)]
pub struct Popup {
    pub title: String,
    pub description: String,
    pub items: Vec<PopupItem>,
    /// The place of the item that is selected.
    pub selected: u64,
    /// Whether the next key or click closes it.
    pub transient: bool,
    pub frame: PopupFrame,
    pub resolver: PopupResolver,
}

/// Where a popup is shown.
#[derive(Clone, Copy, Debug, PartialEq, Eq, Structural)]
pub enum PopupPosition {
    AtCursor,
    BottomRight,
}

/// Where a popup is shown, and how large it may be.
#[derive(Clone, Copy, Debug, PartialEq, Eq, Structural)]
pub struct PopupFrame {
    pub position: PopupPosition,
    pub width: u16,
    pub max_height: u16,
    pub bordered: bool,
}

/// How a buffer differs from what was last saved.
#[derive(Debug)]
pub struct SavedDiff {
    pub equal: bool,
    pub byte_ranges: Vec<(u64, u64)>,
}

/// The flags by which the owner of a virtual buffer sets how it is shown.
#[derive(Clone, Copy, Debug, PartialEq, Eq, Structural)]
pub struct DisplayFlags {
    pub line_numbers: bool,
    pub show_cursors: bool,
    /// Set once a plugin has taken over the visibility of the cursors.
    pub cursor_visibility_locked: bool,
    pub editing_disabled: bool,
    pub indentation_guide_override: Option<bool>,
    pub scrollable: bool,
    /// Whether an interactive widget panel is drawn into the buffer.
    pub interactive_widget_panel: bool,
}

/// The content of a buffer.
#[derive(Debug)]
pub struct BufferContent {
    pub bytes: Vec<u8>,
    /// The byte offsets at which a user-perceived character starts, in order.
    pub grapheme_starts: Vec<u64>,
    pub path: Option<String>,
    pub modified: bool,
    /// The number of lines; absent where a huge file was loaded without a
    /// line index.
    pub line_count: Option<u64>,
    pub language: String,
    pub primary_cursor_line: u32,
    pub saved_diff: Arc<SavedDiff>,
    pub text_properties: Arc<Vec<String>>,
}

/// A buffer.
#[derive(Debug)]
pub struct BufferState {
    pub content: BufferContent,
    pub flags: DisplayFlags,
    pub popups: Vec<Popup>,
}

/// What is known of a buffer beside its content.
#[derive(Debug)]
pub struct BufferMetadata {
    pub display_name: String,
    pub file_path: Option<String>,
    pub is_virtual: bool,
    pub is_preview: bool,
    pub hidden_from_tabs: bool,
    pub auto_revert_enabled: bool,
    /// Whether the buffer only fills a window that would show nothing.
    pub synthetic_placeholder: bool,
    pub read_only: bool,
}

/// The undo history of a buffer.
#[derive(Debug)]
pub struct EventLog {
    pub events: Vec<String>,
}

/// A cursor with the other end of its selection.
#[derive(Clone, Copy, Debug, PartialEq, Eq, Structural)]
pub struct Cursor {
    pub position: u64,
    pub anchor: Option<u64>,
}

/// The visible part of a buffer.
#[derive(Clone, Copy, Debug, PartialEq, Eq, Structural)]
pub struct Viewport {
    pub top_byte: u64,
    /// How many visual rows of the top line are scrolled off.
    pub top_view_line_offset: u64,
    pub left_column: u16,
    pub width: u16,
    pub height: u16,
    pub line_wrap_enabled: bool,
    /// Whether lines wrap exactly at the columns of a terminal grid.
    pub grid_wrap: bool,
}

/// What a split remembers of one buffer.
#[derive(Debug)]
pub struct BufferViewState {
    pub cursor: Cursor,
    /// The cursors beside the primary one; absent where there are none.
    pub other_cursors: Option<Arc<Vec<Cursor>>>,
    pub viewport: Viewport,
    pub view_mode: ViewMode,
    pub compose_width: Option<u16>,
    pub show_line_numbers: bool,
    /// The values that plugins keep; absent where none has kept any.
    pub plugin_state: Option<Arc<Vec<(String, String)>>>,
}

/// The viewport on a buffer that was not scrolled yet.
pub open spec fn top_of_buffer(width: u16, height: u16) -> Viewport {
    Viewport {
        top_byte: 0,
        top_view_line_offset: 0,
        left_column: 0,
        width,
        height,
        line_wrap_enabled: false,
        grid_wrap: false,
    }
}

/// What a split of a size remembers of a buffer that it has not shown yet.
pub open spec fn fresh_view(width: u16, height: u16) -> BufferViewState {
    BufferViewState {
        cursor: Cursor { position: 0, anchor: None },
        other_cursors: None,
        viewport: top_of_buffer(width, height),
        view_mode: ViewMode::Source,
        compose_width: None,
        show_line_numbers: true,
        plugin_state: None,
    }
}

impl BufferViewState {
    /// What a split of a size remembers of a buffer that it has not shown yet.
    pub fn new(width: u16, height: u16) -> (state: BufferViewState)
        ensures
            state == fresh_view(width, height),
    {
        BufferViewState {
            cursor: Cursor { position: 0, anchor: None },
            other_cursors: None,
            viewport: Viewport {
                top_byte: 0,
                top_view_line_offset: 0,
                left_column: 0,
                width,
                height,
                line_wrap_enabled: false,
                grid_wrap: false,
            },
            view_mode: ViewMode::Source,
            compose_width: None,
            show_line_numbers: true,
            plugin_state: None,
        }
    }

    /// A copy of what is remembered.
    pub fn duplicate(&self) -> (copy: BufferViewState)
        ensures
            copy == *self,
    {
        BufferViewState {
            cursor: self.cursor,
            other_cursors: match &self.other_cursors {
                Some(cursors) => Some(cursors.clone()),
                None => None,
            },
            viewport: self.viewport,
            view_mode: self.view_mode,
            compose_width: self.compose_width,
            show_line_numbers: self.show_line_numbers,
            plugin_state: match &self.plugin_state {
                Some(values) => Some(values.clone()),
                None => None,
            },
        }
    }
}

/// One split: its tabs, the buffers it has shown, and the cursors and the
/// viewport of the buffer that it shows.
#[derive(Debug)]
pub struct ViewState {
    pub active_buffer: BufferId,
    /// The tabs in the order of the tab bar.
    pub open_buffers: Vec<TabTarget>,
    /// The tabs in the order in which they were focused, last one last.
    pub focus_history: Vec<TabTarget>,
    /// What is remembered of buffers. The cursors and the viewport of the buffer
    /// in front are not kept here.
    pub keyed_states: BTreeMap<u64, Arc<BufferViewState>>,
    /// The primary cursor.
    pub cursor: Cursor,
    /// The cursors beside it; absent where there are none.
    pub other_cursors: Option<Arc<Vec<Cursor>>>,
    pub viewport: Viewport,
}

/// A [`ViewState`] as a mathematical value.
pub struct ViewStateModel {
    pub active_buffer: BufferId,
    pub open_buffers: Seq<TabTarget>,
    pub focus_history: Seq<TabTarget>,
    pub keyed_states: Map<u64, Arc<BufferViewState>>,
    pub cursor: Cursor,
    pub other_cursors: Option<Arc<Vec<Cursor>>>,
    pub viewport: Viewport,
}

impl View for ViewState {
    type V = ViewStateModel;

    open spec fn view(&self) -> ViewStateModel {
        ViewStateModel {
            active_buffer: self.active_buffer,
            open_buffers: self.open_buffers@,
            focus_history: self.focus_history@,
            keyed_states: self.keyed_states@,
            cursor: self.cursor,
            other_cursors: self.other_cursors,
            viewport: self.viewport,
        }
    }
}

/// Whether a tab stands for something other than `buffer_id`.
pub open spec fn tab_is_other(buffer_id: BufferId) -> spec_fn(TabTarget) -> bool {
    |t: TabTarget| t != TabTarget::Buffer(buffer_id)
}

impl ViewStateModel {
    /// This split without any trace of `buffer_id` among its tabs.
    pub open spec fn without_buffer(self, buffer_id: BufferId) -> ViewStateModel {
        ViewStateModel {
            open_buffers: self.open_buffers.filter(tab_is_other(buffer_id)),
            focus_history: self.focus_history.filter(tab_is_other(buffer_id)),
            keyed_states: self.keyed_states.remove(buffer_id.0),
            ..self
        }
    }

    /// What this split remembers of a buffer, or would. Of the buffer in front it
    /// has the cursors and the viewport at hand.
    pub open spec fn memory_of(self, buffer: BufferId) -> BufferViewState {
        let kept = if self.keyed_states.contains_key(buffer.0) {
            *self.keyed_states[buffer.0]
        } else {
            fresh_view(self.viewport.width, self.viewport.height)
        };
        if buffer == self.active_buffer {
            BufferViewState {
                cursor: self.cursor,
                other_cursors: self.other_cursors,
                viewport: self.viewport,
                ..kept
            }
        } else {
            kept
        }
    }

    /// The cursors of this split, the primary one first.
    pub open spec fn cursors(self) -> Seq<Cursor> {
        match self.other_cursors {
            Some(others) => seq![self.cursor] + others@,
            None => seq![self.cursor],
        }
    }

    /// This split with a tab for `buffer_id`, at the end if it is a new one.
    pub open spec fn with_tab(self, buffer_id: BufferId) -> ViewStateModel {
        if self.open_buffers.contains(TabTarget::Buffer(buffer_id)) {
            self
        } else {
            ViewStateModel {
                open_buffers: self.open_buffers.push(TabTarget::Buffer(buffer_id)),
                ..self
            }
        }
    }

    /// A split that shows `buffer_id` and nothing else.
    pub open spec fn single(width: u16, height: u16, buffer_id: BufferId) -> ViewStateModel {
        ViewStateModel {
            active_buffer: buffer_id,
            open_buffers: seq![TabTarget::Buffer(buffer_id)],
            focus_history: Seq::empty(),
            keyed_states: Map::empty().insert(buffer_id.0, Arc::new(fresh_view(width, height))),
            cursor: Cursor { position: 0, anchor: None },
            other_cursors: None,
            viewport: top_of_buffer(width, height),
        }
    }
}

/// Where `tab` stands in `tabs`.
fn has_tab(tabs: &Vec<TabTarget>, tab: TabTarget) -> (found: bool)
    ensures
        found == tabs@.contains(tab),
{
    let mut at: usize = 0;
    while at < tabs.len()
        invariant
            at <= tabs.len(),
            forall|i: int| 0 <= i < at ==> tabs@[i] != tab,
        decreases tabs.len() - at,
    {
        if tabs[at] == tab {
            return true;
        }
        at = at + 1;
    }
    false
}

impl ViewState {
    /// A split that shows `buffer_id` and nothing else.
    pub fn with_buffer(width: u16, height: u16, buffer_id: BufferId) -> (state: ViewState)
        ensures
            state@ == ViewStateModel::single(width, height, buffer_id),
    {
        let mut open_buffers: Vec<TabTarget> = Vec::new();
        open_buffers.push(TabTarget::Buffer(buffer_id));
        let fresh = BufferViewState::new(width, height);
        let cursor = fresh.cursor;
        let viewport = fresh.viewport;
        let mut keyed_states: BTreeMap<u64, Arc<BufferViewState>> = BTreeMap::new();
        keyed_states.insert(buffer_id.0, Arc::new(fresh));
        ViewState {
            active_buffer: buffer_id,
            open_buffers,
            focus_history: Vec::new(),
            keyed_states,
            cursor,
            other_cursors: None,
            viewport,
        }
    }

    /// A copy of the split.
    pub fn duplicate(&self) -> (copy: ViewState)
        ensures
            copy@ == self@,
    {
        let copy = ViewState {
            active_buffer: self.active_buffer,
            open_buffers: self.open_buffers.clone(),
            focus_history: self.focus_history.clone(),
            keyed_states: self.keyed_states.clone(),
            cursor: self.cursor,
            other_cursors: match &self.other_cursors {
                Some(cursors) => Some(cursors.clone()),
                None => None,
            },
            viewport: self.viewport,
        };
        proof {
            assert(copy.open_buffers@ =~= self.open_buffers@);
            assert(copy.focus_history@ =~= self.focus_history@);
        }
        copy
    }

    /// Drops the tab of `buffer_id` and what the split remembers of it.
    pub fn remove_buffer(&mut self, buffer_id: BufferId)
        ensures
            final(self)@ == old(self)@.without_buffer(buffer_id),
    {
        let tab = TabTarget::Buffer(buffer_id);
        let keep = |t: &TabTarget| -> (b: bool)
            ensures
                b == (*t != tab),
        {
            *t != tab
        };
        retain_where(&mut self.open_buffers, keep, Ghost(tab_is_other(buffer_id)));
        let keep = |t: &TabTarget| -> (b: bool)
            ensures
                b == (*t != tab),
        {
            *t != tab
        };
        retain_where(&mut self.focus_history, keep, Ghost(tab_is_other(buffer_id)));
        self.keyed_states.remove(&buffer_id.0);
    }

    /// Adds a tab for `buffer_id` where there is none.
    pub fn add_buffer(&mut self, buffer_id: BufferId)
        ensures
            final(self)@ == old(self)@.with_tab(buffer_id),
    {
        let tab = TabTarget::Buffer(buffer_id);
        if !has_tab(&self.open_buffers, tab) {
            self.open_buffers.push(tab);
        }
    }
}

/// A leaf of the split tree, with the buffer that it shows and where.
#[derive(Debug)]
pub struct Pane {
    pub leaf: LeafId,
    pub buffer: BufferId,
    pub rect: Rect,
    pub label: Option<String>,
}

/// The splits of a window.
#[derive(Debug)]
pub struct SplitLayout {
    pub active_split: LeafId,
    /// The leaf that takes the keys: the focused panel where the active split
    /// shows a group, and the active split otherwise.
    pub effective_split: LeafId,
    /// The leaves in visual order: left to right, top to bottom.
    pub panes: Vec<Pane>,
    pub view_states: BTreeMap<u64, ViewState>,
    /// The leaf that holds the utility dock.
    pub utility_dock: Option<LeafId>,
}

/// A [`SplitLayout`] as a mathematical value.
pub struct LayoutModel {
    pub active_split: LeafId,
    pub effective_split: LeafId,
    pub panes: Seq<Pane>,
    pub view_states: Map<u64, ViewStateModel>,
    pub utility_dock: Option<LeafId>,
}

/// The views of the splits of a layout.
pub open spec fn view_state_models(states: Map<u64, ViewState>) -> Map<u64, ViewStateModel> {
    states.map_values(|s: ViewState| s@)
}

impl View for SplitLayout {
    type V = LayoutModel;

    open spec fn view(&self) -> LayoutModel {
        LayoutModel {
            active_split: self.active_split,
            effective_split: self.effective_split,
            panes: self.panes@,
            view_states: view_state_models(self.view_states@),
            utility_dock: self.utility_dock,
        }
    }
}

impl LayoutModel {
    /// This layout without any tab of `buffer_id`.
    pub open spec fn without_buffer(self, buffer_id: BufferId) -> LayoutModel {
        LayoutModel {
            view_states: self.view_states.map_values(
                |s: ViewStateModel| s.without_buffer(buffer_id),
            ),
            ..self
        }
    }

    /// This layout with a tab for `buffer_id` in its active split.
    pub open spec fn with_tab(self, buffer_id: BufferId) -> LayoutModel {
        if self.view_states.contains_key(self.active_split.0.0) {
            LayoutModel {
                view_states: self.view_states.insert(
                    self.active_split.0.0,
                    self.view_states[self.active_split.0.0].with_tab(buffer_id),
                ),
                ..self
            }
        } else {
            self
        }
    }

    /// A layout of one leaf, which shows `buffer_id`.
    pub open spec fn single(width: u16, height: u16, buffer_id: BufferId) -> LayoutModel {
        let leaf = LeafId(SplitId(0));
        LayoutModel {
            active_split: leaf,
            effective_split: leaf,
            panes: seq![
                Pane {
                    leaf,
                    buffer: buffer_id,
                    rect: Rect { x: 0, y: 0, width, height },
                    label: None,
                },
            ],
            view_states: Map::<u64, ViewStateModel>::empty().insert(
                0,
                ViewStateModel::single(width, height, buffer_id),
            ),
            utility_dock: None,
        }
    }
}

impl SplitLayout {
    /// A layout of one leaf, which shows `buffer_id`.
    pub fn single(width: u16, height: u16, buffer_id: BufferId) -> (layout: SplitLayout)
        ensures
            layout@ == LayoutModel::single(width, height, buffer_id),
    {
        let leaf = LeafId(SplitId(0));
        let mut panes: Vec<Pane> = Vec::new();
        panes.push(
            Pane { leaf, buffer: buffer_id, rect: Rect { x: 0, y: 0, width, height }, label: None },
        );
        let mut view_states: BTreeMap<u64, ViewState> = BTreeMap::new();
        let state = ViewState::with_buffer(width, height, buffer_id);
        let ghost made = state@;
        view_states.insert(0, state);
        proof {
            assert(view_state_models(view_states@) =~= Map::<u64, ViewStateModel>::empty().insert(
                0,
                made,
            ));
        }
        SplitLayout {
            active_split: leaf,
            effective_split: leaf,
            panes,
            view_states,
            utility_dock: None,
        }
    }

    /// A copy of the layout.
    pub fn duplicate(&self) -> (copy: SplitLayout)
        ensures
            copy@ == self@,
    {
        let mut panes: Vec<Pane> = Vec::new();
        let mut at: usize = 0;
        while at < self.panes.len()
            invariant
                at <= self.panes.len(),
                panes@ =~= self.panes@.take(at as int),
            decreases self.panes.len() - at,
        {
            let pane = &self.panes[at];
            panes.push(
                Pane {
                    leaf: pane.leaf,
                    buffer: pane.buffer,
                    rect: pane.rect,
                    label: match &pane.label {
                        Some(label) => Some(label.clone()),
                        None => None,
                    },
                },
            );
            at = at + 1;
        }
        let keys = crate::lists::sorted_keys(&self.view_states);
        let mut view_states: BTreeMap<u64, ViewState> = BTreeMap::new();
        let mut at: usize = 0;
        while at < keys.len()
            invariant
                at <= keys.len(),
                crate::lists::is_sorted_domain(keys@, self.view_states@),
                forall|k: u64| #[trigger]
                    view_states@.contains_key(k) <==> keys@.take(at as int).contains(k),
                forall|k: u64| #[trigger]
                    view_states@.contains_key(k) ==> view_states@[k]@ == self.view_states@[k]@,
            decreases keys.len() - at,
        {
            let key = keys[at];
            proof {
                assert(keys@.contains(key));
                let done = keys@.take(at as int);
                let next = keys@.take(at + 1);
                assert(next =~= done.push(key));
                assert forall|k: u64| next.contains(k) <==> k == key || done.contains(k) by {
                    if next.contains(k) {
                        let i = next.index_of(k);
                        if i < done.len() {
                            assert(done[i] == k);
                        }
                    }
                    if done.contains(k) {
                        let i = done.index_of(k);
                        assert(next[i] == k);
                    }
                    assert(next[done.len() as int] == key);
                }
            }
            if let Some(state) = self.view_states.get(&key) {
                view_states.insert(key, state.duplicate());
            }
            at = at + 1;
        }
        proof {
            assert(self.panes@.take(self.panes@.len() as int) =~= self.panes@);
            assert(keys@.take(keys@.len() as int) =~= keys@);
            assert forall|k: u64| #[trigger] view_states@.contains_key(k)
                <==> self.view_states@.contains_key(k) by {
                assert(keys@.contains(k) <==> self.view_states@.contains_key(k));
            }
            assert(view_state_models(view_states@) =~= view_state_models(self.view_states@));
        }
        SplitLayout {
            active_split: self.active_split,
            effective_split: self.effective_split,
            panes,
            view_states,
            utility_dock: self.utility_dock,
        }
    }

    /// Drops every tab of `buffer_id`.
    pub fn remove_buffer(&mut self, buffer_id: BufferId)
        ensures
            final(self)@ == old(self)@.without_buffer(buffer_id),
    {
        let keys = crate::lists::sorted_keys(&self.view_states);
        let ghost before = self.view_states@;
        let mut at: usize = 0;
        while at < keys.len()
            invariant
                at <= keys.len(),
                crate::lists::is_sorted_domain(keys@, before),
                self.view_states@.dom() == before.dom(),
                forall|i: int|
                    0 <= i < at ==> self.view_states@[#[trigger] keys@[i]]@
                        == before[keys@[i]]@.without_buffer(buffer_id),
                forall|i: int|
                    at <= i < keys.len() ==> self.view_states@[#[trigger] keys@[i]]
                        == before[keys@[i]],
                self.active_split == old(self).active_split,
                self.effective_split == old(self).effective_split,
                self.panes == old(self).panes,
                self.utility_dock == old(self).utility_dock,
            decreases keys.len() - at,
        {
            proof {
                assert(keys@.contains(keys@[at as int]));
                assert(before.contains_key(keys@[at as int]));
                assert(self.view_states@.dom().contains(keys@[at as int]));
            }
            let key = keys[at];
            match self.view_states.remove(&key) {
                Some(mut state) => {
                    state.remove_buffer(buffer_id);
                    self.view_states.insert(key, state);
                },
                None => {},
            }
            proof {
                assert(self.view_states@.dom() =~= before.dom());
            }
            at = at + 1;
        }
        proof {
            assert forall|k: u64| before.contains_key(k) implies #[trigger] self.view_states@[k]@
                == before[k]@.without_buffer(buffer_id) by {
                assert(keys@.contains(k));
                let i = keys@.index_of(k);
                assert(keys@[i] == k);
            }
            assert(self@.view_states =~= old(self)@.without_buffer(buffer_id).view_states);
        }
    }

    /// Adds a tab for `buffer_id` to the active split.
    pub fn add_buffer(&mut self, buffer_id: BufferId)
        ensures
            final(self)@ == old(self)@.with_tab(buffer_id),
    {
        let key = self.active_split.0.0;
        let ghost before = self@;
        match self.view_states.remove(&key) {
            Some(mut state) => {
                state.add_buffer(buffer_id);
                self.view_states.insert(key, state);
            },
            None => {},
        }
        proof {
            assert(self@.view_states =~= before.with_tab(buffer_id).view_states);
        }
    }

    /// The leaves that show `buffer_id`, in visual order.
    pub fn splits_for_buffer(&self, buffer_id: BufferId) -> (leaves: Vec<LeafId>)
        ensures
            leaves@ == leaves_showing(self.panes@, buffer_id),
    {
        let mut leaves: Vec<LeafId> = Vec::new();
        let mut at: usize = 0;
        while at < self.panes.len()
            invariant
                at <= self.panes.len(),
                leaves@ == leaves_showing(self.panes@.take(at as int), buffer_id),
            decreases self.panes.len() - at,
        {
            proof {
                let next = self.panes@.take(at + 1);
                assert(next.drop_last() =~= self.panes@.take(at as int));
                assert(next.last() == self.panes@[at as int]);
            }
            if self.panes[at].buffer == buffer_id {
                leaves.push(self.panes[at].leaf);
            }
            at = at + 1;
        }
        proof {
            assert(self.panes@.take(self.panes@.len() as int) =~= self.panes@);
        }
        leaves
    }
}

/// The leaves that show `buffer_id`, in visual order.
pub open spec fn leaves_showing(panes: Seq<Pane>, buffer_id: BufferId) -> Seq<LeafId>
    decreases panes.len(),
{
    if panes.len() == 0 {
        Seq::empty()
    } else {
        let rest = leaves_showing(panes.drop_last(), buffer_id);
        if panes.last().buffer == buffer_id {
            rest.push(panes.last().leaf)
        } else {
            rest
        }
    }
}

} // verus!
