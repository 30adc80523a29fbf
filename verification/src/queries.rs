//! Commands that read buffers and splits of the active window, or move what
//! they show.
use vstd::prelude::*;

use crate::buffer_text::buffer_line_byte_offset;
use crate::buffer_text::clamp_buffer_text_range;
use crate::buffer_text::count_lines;
use crate::buffer_text::line_offset;
use crate::buffer_text::line_total;
use crate::buffer_text::range_bytes;
use crate::buffer_text::text_range;
use crate::documents::tab_is_other;
use crate::documents::BufferMetadata;
use crate::documents::BufferState;
use crate::documents::DisplayFlags;
use crate::documents::LayoutModel;
use crate::documents::Pane;
use crate::documents::SplitLayout;
use crate::documents::TabTarget;
use crate::documents::ViewStateModel;
use crate::editor::Editor;
use crate::editor::EditorModel;
use crate::effects::CallbackOwner;
use crate::effects::Effect;
use crate::effects::EffectModel;
use crate::effects::Reply;
use crate::ids::BufferId;
use crate::ids::JsCallbackId;
use crate::ids::LeafId;
use crate::ids::SplitId;
use crate::json::composite_cursor_to_json;
use crate::json::json_composite_cursor;
use crate::lists::first_match;
use crate::lists::is_sorted_domain;
use crate::lists::lemma_first_match_found;
use crate::lists::lemma_first_match_none;
use crate::lists::lemma_sorted_members;
use crate::lists::retain_where;
use crate::lists::sorted_keys;
use crate::notice::Notice;
use crate::notice::Rejection;
use crate::text::same_text;
use crate::window::DocumentsModel;
use crate::window::Window;
use crate::window::WindowModel;
use crate::window_snapshot::key_order;

verus! {

/// Where the cursor of a composite buffer is.
#[derive(Debug)]
pub struct CompositeCursor {
    /// The pane that has the focus.
    pub focused_pane: u64,
    pub pane_count: u64,
    /// The line in each pane, where it has one.
    pub lines: Vec<Option<u64>>,
}

impl EditorModel {
    /// The buffer that a plugin means: zero stands for the active one.
    pub open spec fn resolved_buffer(self, buffer: BufferId) -> BufferId {
        if buffer.0 == 0 && self.has_active() {
            self.active().documents.active_buffer
        } else {
            buffer
        }
    }

    /// The content of a buffer of the active window.
    pub open spec fn bytes_of(self, buffer: BufferId) -> Option<Seq<u8>> {
        if self.has_active() && self.active().documents.buffers.contains_key(buffer.0) {
            Some(self.active().documents.buffers[buffer.0].content.bytes@)
        } else {
            None
        }
    }

    /// This editor with a promise of the host resolved.
    pub open spec fn answering(self, request_id: u64, reply: Reply) -> EditorModel {
        self.emitting(
            Effect::Resolve {
                owner: CallbackOwner::Host,
                callback: JsCallbackId(request_id),
                reply,
            },
        )
    }

    /// Whether `after` is this editor once a promise of the host was resolved
    /// with the JSON text `json`.
    pub open spec fn is_answering_json(
        self,
        request_id: u64,
        json: Seq<char>,
        after: EditorModel,
    ) -> bool {
        exists|text: String|
            {
                &&& text@ == json
                &&& #[trigger] self.answering(request_id, Reply::Json(text)) == after
            }
    }

    /// This editor once a plugin was told how long a buffer is.
    pub open spec fn length_told(self, buffer: BufferId, request_id: u64) -> EditorModel {
        self.answering(
            request_id,
            Reply::Number(
                match self.bytes_of(buffer) {
                    Some(bytes) => Some(bytes.len() as u64),
                    None => None,
                },
            ),
        )
    }

    /// The layout of the active window.
    pub open spec fn active_layout(self) -> Option<LayoutModel> {
        if self.has_active() {
            self.active().documents.layout
        } else {
            None
        }
    }
}

/// Whether a pane has the label `label`.
pub open spec fn has_label(label: Seq<char>) -> spec_fn(Pane) -> bool {
    |p: Pane| p.label matches Some(l) && l@ == label
}

/// A layout with another label of a leaf.
pub open spec fn relabelled(
    layout: LayoutModel,
    leaf: LeafId,
    label: Option<String>,
) -> LayoutModel {
    LayoutModel {
        panes: layout.panes.map_values(
            |p: Pane|
                if p.leaf == leaf {
                    Pane { label, ..p }
                } else {
                    p
                },
        ),
        ..layout
    }
}

/// Whether a leaf has `buffer` in front.
pub open spec fn shows_buffer(layout: LayoutModel, leaf: LeafId, buffer: BufferId) -> bool {
    layout.view_states.contains_key(leaf.0.0) && layout.view_states[leaf.0.0].active_buffer
        == buffer
}

/// The leaves among `panes` that have `buffer` in front.
pub open spec fn showing_leaves(layout: LayoutModel, panes: Seq<Pane>, buffer: BufferId) -> Seq<
    LeafId,
>
    decreases panes.len(),
{
    if panes.len() == 0 {
        Seq::empty()
    } else {
        let before = showing_leaves(layout, panes.drop_last(), buffer);
        if shows_buffer(layout, panes.last().leaf, buffer) {
            before.push(panes.last().leaf)
        } else {
            before
        }
    }
}

/// `listed` with those of `leaves` that have `buffer` in front and are not
/// listed yet.
pub open spec fn with_leaves(
    layout: LayoutModel,
    listed: Seq<LeafId>,
    leaves: Seq<LeafId>,
    buffer: BufferId,
) -> Seq<LeafId>
    decreases leaves.len(),
{
    if leaves.len() == 0 {
        listed
    } else {
        let before = with_leaves(layout, listed, leaves.drop_last(), buffer);
        if shows_buffer(layout, leaves.last(), buffer) && !before.contains(leaves.last()) {
            before.push(leaves.last())
        } else {
            before
        }
    }
}

/// `listed` with the inner leaves of the groups `keys` that have `buffer` in
/// front.
pub open spec fn with_group_leaves(
    groups: Map<u64, Vec<LeafId>>,
    layout: LayoutModel,
    listed: Seq<LeafId>,
    keys: Seq<u64>,
    buffer: BufferId,
) -> Seq<LeafId>
    decreases keys.len(),
{
    if keys.len() == 0 {
        listed
    } else {
        with_leaves(
            layout,
            with_group_leaves(groups, layout, listed, keys.drop_last(), buffer),
            groups[keys.last()]@,
            buffer,
        )
    }
}

/// All leaves that have `buffer` in front: those of the tree, and then the
/// inner ones of groups.
pub open spec fn all_leaves_showing(documents: DocumentsModel, layout: LayoutModel, buffer: BufferId) -> Seq<
    LeafId,
> {
    with_group_leaves(
        documents.groups,
        layout,
        showing_leaves(layout, layout.panes, buffer),
        key_order(documents.groups),
        buffer,
    )
}

/// The first line that is shown where `line` is in the middle of a viewport.
pub open spec fn centered_from(line: u64, height: u16) -> u64 {
    if line < height / 2 {
        0
    } else {
        (line - height / 2) as u64
    }
}

/// Whether the file of a buffer is `path`.
pub open spec fn has_file(documents: DocumentsModel, path: Seq<char>) -> spec_fn(u64) -> bool {
    |buffer: u64| documents.metadata[buffer].file_path matches Some(p) && p@ == path
}

impl SplitLayout {
    /// Whether a leaf has `buffer` in front.
    fn leaf_shows(&self, leaf: LeafId, buffer: BufferId) -> (shows: bool)
        ensures
            shows == shows_buffer(self@, leaf, buffer),
    {
        match self.view_states.get(&leaf.0.0) {
            Some(state) => state.active_buffer == buffer,
            None => false,
        }
    }

    /// The leaves of the tree that have `buffer` in front.
    fn leaves_in_front(&self, buffer: BufferId) -> (leaves: Vec<LeafId>)
        ensures
            leaves@ == showing_leaves(self@, self@.panes, buffer),
    {
        let mut leaves: Vec<LeafId> = Vec::new();
        let mut at: usize = 0;
        proof {
            assert(self.panes@.take(0) =~= Seq::<Pane>::empty());
        }
        while at < self.panes.len()
            invariant
                at <= self.panes.len(),
                leaves@ == showing_leaves(self@, self@.panes.take(at as int), buffer),
            decreases self.panes.len() - at,
        {
            proof {
                assert(self@.panes.take(at + 1).drop_last() =~= self@.panes.take(at as int));
                assert(self@.panes.take(at + 1).last() == self@.panes[at as int]);
            }
            if self.leaf_shows(self.panes[at].leaf, buffer) {
                leaves.push(self.panes[at].leaf);
            }
            at = at + 1;
        }
        proof {
            assert(self@.panes.take(self@.panes.len() as int) =~= self@.panes);
        }
        leaves
    }

    /// Lists those of `leaves` that have `buffer` in front and are not listed
    /// yet.
    fn add_leaves(&self, listed: &mut Vec<LeafId>, leaves: &Vec<LeafId>, buffer: BufferId)
        ensures
            final(listed)@ == with_leaves(self@, old(listed)@, leaves@, buffer),
    {
        let ghost before = listed@;
        let mut at: usize = 0;
        proof {
            assert(leaves@.take(0) =~= Seq::<LeafId>::empty());
        }
        while at < leaves.len()
            invariant
                at <= leaves.len(),
                listed@ == with_leaves(self@, before, leaves@.take(at as int), buffer),
            decreases leaves.len() - at,
        {
            proof {
                assert(leaves@.take(at + 1).drop_last() =~= leaves@.take(at as int));
                assert(leaves@.take(at + 1).last() == leaves@[at as int]);
            }
            if self.leaf_shows(leaves[at], buffer) && !has_leaf(listed, leaves[at]) {
                listed.push(leaves[at]);
            }
            at = at + 1;
        }
        proof {
            assert(leaves@.take(leaves@.len() as int) =~= leaves@);
        }
    }

    /// Gives a leaf another label.
    fn relabel(&mut self, leaf: LeafId, label: Option<String>)
        ensures
            final(self)@ == relabelled(old(self)@, leaf, label),
    {
        let ghost before = self@;
        let mut at: usize = 0;
        while at < self.panes.len()
            invariant
                at <= self.panes@.len(),
                self.panes@.len() == before.panes.len(),
                self@ == (LayoutModel { panes: self.panes@, ..before }),
                forall|i: int|
                    0 <= i < at ==> #[trigger] self.panes@[i] == relabelled(
                        before,
                        leaf,
                        label,
                    ).panes[i],
                forall|i: int| at <= i < before.panes.len() ==> #[trigger] self.panes@[i] == before.panes[i],
            decreases self.panes.len() - at,
        {
            if self.panes[at].leaf == leaf {
                self.panes[at].label = label.clone();
            }
            at = at + 1;
        }
        proof {
            assert(self@.panes =~= relabelled(before, leaf, label).panes);
        }
    }
}

/// Whether `leaf` is listed.
fn has_leaf(leaves: &Vec<LeafId>, leaf: LeafId) -> (found: bool)
    ensures
        found == leaves@.contains(leaf),
{
    let mut at: usize = 0;
    while at < leaves.len()
        invariant
            at <= leaves.len(),
            forall|i: int| 0 <= i < at ==> leaves@[i] != leaf,
        decreases leaves.len() - at,
    {
        if leaves[at] == leaf {
            return true;
        }
        at = at + 1;
    }
    false
}

impl Window {
    /// Lists the inner leaves of groups that have `buffer` in front, after
    /// those that are listed.
    pub(crate) fn add_group_leaves(
        &self,
        layout: &SplitLayout,
        listed: Vec<LeafId>,
        buffer: BufferId,
    ) -> (leaves: Vec<LeafId>)
        ensures
            leaves@ == with_group_leaves(
                self@.documents.groups,
                layout@,
                listed@,
                key_order(self@.documents.groups),
                buffer,
            ),
    {
        let ghost first = listed@;
        let mut leaves = listed;
        let keys = sorted_keys(&self.documents.groups);
        let mut at: usize = 0;
        proof {
            lemma_sorted_members(keys@, |k: u64| self@.documents.groups.contains_key(k));
            assert(keys@.take(0) =~= Seq::<u64>::empty());
        }
        while at < keys.len()
            invariant
                at <= keys.len(),
                is_sorted_domain(keys@, self@.documents.groups),
                leaves@ == with_group_leaves(
                    self@.documents.groups,
                    layout@,
                    first,
                    keys@.take(at as int),
                    buffer,
                ),
            decreases keys.len() - at,
        {
            let key = keys[at];
            proof {
                assert(keys@.contains(key));
                assert(keys@.take(at + 1).drop_last() =~= keys@.take(at as int));
                assert(keys@.take(at + 1).last() == key);
            }
            if let Some(inner) = self.documents.groups.get(&key) {
                layout.add_leaves(&mut leaves, inner, buffer);
            }
            at = at + 1;
        }
        proof {
            assert(keys@.take(keys@.len() as int) =~= keys@);
        }
        leaves
    }

    /// All leaves that have `buffer` in front.
    fn all_leaves_in_front(&self, layout: &SplitLayout, buffer: BufferId) -> (leaves: Vec<LeafId>)
        ensures
            leaves@ == all_leaves_showing(self@.documents, layout@, buffer),
    {
        let leaves = layout.leaves_in_front(buffer);
        self.add_group_leaves(layout, leaves, buffer)
    }
}

impl Editor {
    /// The buffer that a plugin means: zero stands for the active one.
    pub fn resolve_buffer_id(&self, buffer: BufferId) -> (resolved: BufferId)
        ensures
            resolved == self@.resolved_buffer(buffer),
    {
        if buffer.0 == 0 {
            match self.windows.get(&self.active_window.0) {
                Some(window) => window.documents.active_buffer,
                None => buffer,
            }
        } else {
            buffer
        }
    }

    /// A buffer of the active window.
    fn active_window_buffer(&self, buffer: BufferId) -> (state: Option<&BufferState>)
        ensures
            match state {
                Some(s) => self@.bytes_of(buffer) == Some(s.content.bytes@),
                None => self@.bytes_of(buffer) is None,
            },
    {
        match self.windows.get(&self.active_window.0) {
            Some(window) => window.documents.buffers.get(&buffer.0),
            None => None,
        }
    }

    /// Resolves a promise of the host.
    pub(crate) fn resolve_json_callback(&mut self, request_id: u64, reply: Reply)
        ensures
            final(self)@ == old(self)@.answering(request_id, reply),
    {
        self.emit(
            Effect::Resolve {
                owner: CallbackOwner::Host,
                callback: JsCallbackId(request_id),
                reply,
            },
        );
    }

    /// Tells a plugin where the cursor of a composite buffer is; there may be no
    /// such buffer in view.
    pub fn composite_cursor_known(&mut self, request_id: u64, cursor: Option<CompositeCursor>)
        ensures
            match cursor {
                Some(c) => old(self)@.is_answering_json(
                    request_id,
                    json_composite_cursor(c.focused_pane, c.pane_count, c.lines@),
                    final(self)@,
                ),
                None => final(self)@ == old(self)@.answering(request_id, Reply::Null),
            },
    {
        match cursor {
            Some(c) => {
                let text = composite_cursor_to_json(c.focused_pane, c.pane_count, &c.lines);
                self.resolve_json_callback(request_id, Reply::Json(text));
            },
            None => {
                self.resolve_json_callback(request_id, Reply::Null);
            },
        }
    }

    /// Tells a plugin whether a panel of a buffer group shows the buffer that it
    /// was to show.
    pub fn group_panel_set(&mut self, request_id: u64, shown: bool)
        ensures
            final(self)@ == old(self)@.answering(request_id, Reply::Flag(shown)),
    {
        self.resolve_json_callback(request_id, Reply::Flag(shown));
    }

    /// Tells a plugin about the buffer group that was made for it, by the JSON
    /// text of it. One that could not be made is not told of.
    pub fn buffer_group_created(&mut self, request_id: Option<u64>, group: Option<String>)
        ensures
            final(self)@ == match (request_id, group) {
                (Some(id), Some(text)) => old(self)@.answering(id, Reply::Json(text)),
                _ => old(self)@,
            },
    {
        if let Some(text) = group {
            if let Some(id) = request_id {
                self.resolve_json_callback(id, Reply::Json(text));
            }
        }
    }

    /// Has the overlays drawn anew where colours of the theme were changed.
    pub fn theme_colors_overridden(&mut self, applied: u64)
        ensures
            final(self)@ == if applied > 0 {
                old(self)@.emitting(Effect::ReapplyOverlays)
            } else {
                old(self)@
            },
    {
        if applied > 0 {
            self.emit(Effect::ReapplyOverlays);
        }
    }

    /// Hands a part of a buffer to a plugin, as far as the buffer has it.
    pub fn handle_get_buffer_text(
        &mut self,
        buffer: BufferId,
        start: usize,
        end: usize,
        request_id: u64,
    )
        ensures
            final(self)@ == old(self)@.text_asked(buffer, start, end, request_id),
    {
        let callback = JsCallbackId(request_id);
        let text = match self.active_window_buffer(buffer) {
            Some(state) => {
                let (start, end): (usize, usize) = clamp_buffer_text_range(
                    start,
                    end,
                    state.content.bytes.len(),
                );
                Some(text_range(&state.content.bytes, start as u64, end as u64))
            },
            None => None,
        };
        match text {
            Some(text) => self.emit(Effect::ResolveText { callback, text }),
            None => self.emit(
                Effect::Reject {
                    owner: CallbackOwner::Host,
                    callback,
                    reason: Rejection::BufferNotFound { buffer },
                },
            ),
        }
    }

    /// Tells a plugin where a line starts or ends.
    fn handle_get_line_position(
        &mut self,
        buffer: BufferId,
        line: u32,
        request_id: u64,
        want_end: bool,
    )
        ensures
            final(self)@ == old(self)@.answering(
                request_id,
                Reply::Number(old(self)@.line_position(buffer, line, want_end)),
            ),
    {
        let resolved = self.resolve_buffer_id(buffer);
        let position: Option<u64> = match self.active_window_buffer(resolved) {
            Some(state) => {
                let len: usize = state.content.bytes.len();
                match buffer_line_byte_offset(&state.content.bytes, len, line as usize, want_end) {
                    Some(at) => Some(at as u64),
                    None => None,
                }
            },
            None => None,
        };
        self.resolve_json_callback(request_id, Reply::Number(position));
    }

    /// Tells a plugin where a line starts.
    pub fn handle_get_line_start_position(&mut self, buffer: BufferId, line: u32, request_id: u64)
        ensures
            final(self)@ == old(self)@.answering(
                request_id,
                Reply::Number(old(self)@.line_position(buffer, line, false)),
            ),
    {
        self.handle_get_line_position(buffer, line, request_id, false);
    }

    /// Tells a plugin where a line ends.
    pub fn handle_get_line_end_position(&mut self, buffer: BufferId, line: u32, request_id: u64)
        ensures
            final(self)@ == old(self)@.answering(
                request_id,
                Reply::Number(old(self)@.line_position(buffer, line, true)),
            ),
    {
        self.handle_get_line_position(buffer, line, request_id, true);
    }

    /// Tells a plugin how many lines a buffer has.
    pub fn handle_get_buffer_line_count(&mut self, buffer: BufferId, request_id: u64)
        ensures
            final(self)@ == old(self)@.line_count_asked(buffer, request_id),
    {
        let resolved = self.resolve_buffer_id(buffer);
        let lines: Option<u64> = match self.active_window_buffer(resolved) {
            Some(state) => Some(count_lines(&state.content.bytes) as u64),
            None => None,
        };
        self.resolve_json_callback(request_id, Reply::Number(lines));
    }

    /// Shows a line in the middle of a split. Zero stands for the active split.
    pub fn handle_scroll_to_line_center(&mut self, split: SplitId, buffer: BufferId, line: u64)
        ensures
            final(self)@ == old(self)@.centered(split, buffer, line),
    {
        let resolved = self.resolve_buffer_id(buffer);
        let target = match self.windows.get(&self.active_window.0) {
            Some(window) => match &window.documents.layout {
                Some(layout) => {
                    let leaf = if split.0 == 0 {
                        layout.active_split
                    } else {
                        LeafId(split)
                    };
                    match layout.view_states.get(&leaf.0.0) {
                        Some(state) => Some((leaf, state.viewport.height)),
                        None => None,
                    }
                },
                None => None,
            },
            None => None,
        };
        if let Some((leaf, height)) = target {
            let above: u64 = (height / 2) as u64;
            let first: u64 = if line < above {
                0
            } else {
                line - above
            };
            self.emit(Effect::ScrollSplit { buffer: resolved, split: leaf, line: first });
        }
    }

    /// Brings a line into view in every split that has the buffer in front.
    pub fn handle_scroll_buffer_to_line(&mut self, buffer: BufferId, line: u64)
        ensures
            final(self)@ == old(self)@.brought_into_view(buffer, line),
    {
        let splits = match self.windows.get(&self.active_window.0) {
            Some(window) => if window.documents.buffers.contains_key(&buffer.0) {
                match &window.documents.layout {
                    Some(layout) => window.all_leaves_in_front(layout, buffer),
                    None => Vec::new(),
                }
            } else {
                Vec::new()
            },
            None => Vec::new(),
        };
        if splits.len() > 0 {
            self.emit(Effect::ScrollBuffer { buffer, splits, line });
        }
    }

    /// Goes to the next or previous hunk of a composite buffer.
    pub fn handle_composite_hunk(&mut self, buffer: BufferId, forward: bool)
        ensures
            final(self)@ == old(self)@.hunk_moved(buffer, forward),
    {
        let split = match self.windows.get(&self.active_window.0) {
            Some(window) => match &window.documents.layout {
                Some(layout) => Some(layout.effective_split),
                None => None,
            },
            None => None,
        };
        if let Some(split) = split {
            self.emit(Effect::CompositeHunk { split, buffer, forward });
        }
    }

    /// Gives a split a label, or takes it away.
    pub fn handle_set_split_label(&mut self, split: SplitId, label: Option<String>)
        ensures
            final(self)@ == old(self)@.split_labelled(split, label),
    {
        let id = self.active_window;
        let ghost before = self@;
        if let Some(mut window) = self.take_window(id) {
            match window.documents.layout.take() {
                Some(mut layout) => {
                    layout.relabel(LeafId(split), label);
                    window.documents.layout = Some(layout);
                },
                None => {
                    proof {
                        assert(before.with_window(id, before.window(id)).windows
                            =~= before.windows);
                    }
                },
            }
            self.put_back(id, window, Ghost(before));
        }
    }

    /// Tells a plugin which split has a label.
    pub fn handle_get_split_by_label(&mut self, label: &str, request_id: u64)
        ensures
            final(self)@ == old(self)@.split_found(label@, request_id),
    {
        let found: Option<u64> = match self.windows.get(&self.active_window.0) {
            Some(window) => match &window.documents.layout {
                Some(layout) => find_label(&layout.panes, label),
                None => None,
            },
            None => None,
        };
        self.resolve_json_callback(request_id, Reply::Number(found));
    }

    /// Shows or hides the cursors of a buffer, which from then on only the
    /// plugin does.
    pub fn handle_set_buffer_show_cursors(&mut self, buffer: BufferId, show: bool)
        ensures
            final(self)@ == old(self)@.cursors_shown(buffer, show),
    {
        let id = self.active_window;
        let ghost before = self@;
        if let Some(mut window) = self.take_window(id) {
            let ghost buffers = window.documents.buffers@;
            match window.documents.buffers.remove(&buffer.0) {
                Some(mut state) => {
                    state.flags.show_cursors = show;
                    state.flags.cursor_visibility_locked = true;
                    let ghost made = state;
                    window.documents.buffers.insert(buffer.0, state);
                    proof {
                        assert(buffers.remove(buffer.0).insert(buffer.0, made) =~= buffers.insert(
                            buffer.0,
                            made,
                        ));
                    }
                },
                None => {
                    proof {
                        assert(buffers.remove(buffer.0) =~= buffers);
                        assert(before.with_window(id, before.window(id)).windows
                            =~= before.windows);
                    }
                },
            }
            self.put_back(id, window, Ghost(before));
        }
    }

    /// Marks the open file at `path` as read-only.
    pub fn handle_mark_buffer_read_only(&mut self, path: &str)
        ensures
            final(self)@ == old(self)@.read_only_marked(path@),
    {
        let found = match self.windows.get(&self.active_window.0) {
            Some(window) => window.find_file(path),
            None => None,
        };
        if let Some(buffer) = found {
            self.emit(Effect::MarkReadOnly { buffer });
        }
    }

    /// Writes a buffer to a path, or tells the user that there is none.
    pub fn handle_save_buffer_to_path(&mut self, buffer: BufferId, path: String)
        ensures
            final(self)@ == old(self)@.saving(buffer, path),
    {
        if self.active_window_buffer(buffer).is_some() {
            self.emit(Effect::SaveBuffer { buffer, path });
        } else {
            self.tell(Notice::BufferNotFound { buffer });
        }
    }

    /// Tells the user that a buffer could not be written.
    pub fn save_failed(&mut self, error: String)
        ensures
            final(self)@ == old(self)@.telling(Notice::SaveFailed { error }),
    {
        self.tell(Notice::SaveFailed { error });
    }

    /// Asks how far the file of a buffer has grown.
    pub fn handle_refresh_buffer_from_disk(&mut self, buffer: BufferId, request_id: u64)
        ensures
            final(self)@ == old(self)@.refresh_asked(buffer, request_id),
    {
        let resolved = self.resolve_buffer_id(buffer);
        let path = match self.windows.get(&self.active_window.0) {
            Some(window) => if window.documents.layout.is_some() {
                match window.documents.buffers.get(&resolved.0) {
                    Some(state) => state.content.path.clone(),
                    None => None,
                }
            } else {
                None
            },
            None => None,
        };
        match path {
            Some(path) => self.emit(Effect::StatBuffer { buffer: resolved, path, request_id }),
            None => self.resolve_json_callback(request_id, Reply::Number(None)),
        }
    }

    /// Lets a buffer follow its file, whose size is known by now. A file that has
    /// not grown changes nothing, and the plugin is told how long the buffer is.
    pub fn buffer_stat_known(&mut self, buffer: BufferId, request_id: u64, size: Option<u64>)
        ensures
            final(self)@ == match (old(self)@.bytes_of(buffer), size) {
                (Some(bytes), Some(size)) => if size > bytes.len() {
                    old(self)@.emitting(Effect::ExtendBuffer { buffer, size, request_id })
                } else {
                    old(self)@.length_told(buffer, request_id)
                },
                _ => old(self)@.answering(request_id, Reply::Number(None)),
            },
    {
        let length: Option<u64> = match self.active_window_buffer(buffer) {
            Some(state) => Some(state.content.bytes.len() as u64),
            None => None,
        };
        match (length, size) {
            (Some(length), Some(size)) => {
                if size > length {
                    self.emit(Effect::ExtendBuffer { buffer, size, request_id });
                } else {
                    self.buffer_extended(buffer, request_id);
                }
            },
            _ => {
                self.resolve_json_callback(request_id, Reply::Number(None));
            },
        }
    }

    /// Tells the plugin how long a buffer is that has followed its file.
    pub fn buffer_extended(&mut self, buffer: BufferId, request_id: u64)
        ensures
            final(self)@ == old(self)@.length_told(buffer, request_id),
    {
        let length: Option<u64> = match self.active_window_buffer(buffer) {
            Some(state) => Some(state.content.bytes.len() as u64),
            None => None,
        };
        self.resolve_json_callback(request_id, Reply::Number(length));
    }

    /// Hands a file that was opened for streaming to the plugin: no tab shows
    /// it, and it is not reread when it changes.
    pub fn streaming_file_opened(&mut self, request_id: u64, opened: Option<BufferId>)
        ensures
            final(self)@ == match opened {
                Some(buffer) => old(self)@.changing_active(
                    |w: WindowModel| w.with_documents(w.documents.streaming(buffer)),
                ).answering(request_id, Reply::Number(Some(buffer.0))),
                None => old(self)@.answering(request_id, Reply::Number(None)),
            },
    {
        let buffer = match opened {
            Some(buffer) => buffer,
            None => {
                self.resolve_json_callback(request_id, Reply::Number(None));
                return ;
            },
        };
        let id = self.active_window;
        let ghost before = self@;
        if let Some(mut window) = self.take_window(id) {
            window.hide_streaming(buffer);
            self.put_back(id, window, Ghost(before));
        }
        self.resolve_json_callback(request_id, Reply::Number(Some(buffer.0)));
    }
}

impl EditorModel {
    /// Where a line of a buffer starts or ends.
    pub open spec fn line_position(
        self,
        buffer: BufferId,
        line: u32,
        want_end: bool,
    ) -> Option<u64> {
        match self.bytes_of(self.resolved_buffer(buffer)) {
            Some(bytes) => match line_offset(bytes, bytes.len() as int, line as nat, want_end) {
                Some(at) => Some(at as u64),
                None => None,
            },
            None => None,
        }
    }

    /// This editor with another layout of its active window.
    pub open spec fn with_layout(self, layout: LayoutModel) -> EditorModel {
        self.with_active(
            self.active().with_documents(
                DocumentsModel { layout: Some(layout), ..self.active().documents },
            ),
        )
    }

    /// The buffer of the active window whose file is `path`.
    pub open spec fn buffer_at(self, path: Seq<char>) -> Option<u64> {
        if self.has_active() {
            first_match(
                key_order(self.active().documents.metadata),
                has_file(self.active().documents, path),
            )
        } else {
            None
        }
    }
}

impl DocumentsModel {
    /// These buffers with `buffer` as one that a plugin fills.
    pub open spec fn streaming(self, buffer: BufferId) -> DocumentsModel {
        DocumentsModel {
            metadata: if self.metadata.contains_key(buffer.0) {
                self.metadata.insert(
                    buffer.0,
                    BufferMetadata {
                        hidden_from_tabs: true,
                        auto_revert_enabled: false,
                        ..self.metadata[buffer.0]
                    },
                )
            } else {
                self.metadata
            },
            layout: match self.layout {
                Some(layout) => if layout.view_states.contains_key(layout.active_split.0.0) {
                    let state = layout.view_states[layout.active_split.0.0];
                    Some(
                        LayoutModel {
                            view_states: layout.view_states.insert(
                                layout.active_split.0.0,
                                ViewStateModel {
                                    open_buffers: state.open_buffers.filter(tab_is_other(buffer)),
                                    ..state
                                },
                            ),
                            ..layout
                        },
                    )
                } else {
                    Some(layout)
                },
                None => None,
            },
            ..self
        }
    }
}

/// The pane that has a label.
fn find_label(panes: &Vec<Pane>, label: &str) -> (found: Option<u64>)
    ensures
        found == match first_match(panes@, has_label(label@)) {
            Some(pane) => Some(pane.leaf.0.0),
            None => None,
        },
{
    let ghost wanted = has_label(label@);
    let mut at: usize = 0;
    while at < panes.len()
        invariant
            at <= panes.len(),
            wanted == has_label(label@),
            forall|i: int| 0 <= i < at ==> !wanted(#[trigger] panes@[i]),
        decreases panes.len() - at,
    {
        let same = match &panes[at].label {
            Some(l) => same_text(l.as_str(), label),
            None => false,
        };
        if same {
            proof {
                lemma_first_match_found(panes@, wanted, at as int);
            }
            return Some(panes[at].leaf.0.0);
        }
        at = at + 1;
    }
    proof {
        lemma_first_match_none(panes@, wanted);
    }
    None
}

impl Window {
    /// The buffer whose file is `path`.
    fn find_file(&self, path: &str) -> (found: Option<BufferId>)
        ensures
            match first_match(key_order(self@.documents.metadata), has_file(self@.documents, path@)) {
                Some(buffer) => found == Some(BufferId(buffer)),
                None => found is None,
            },
    {
        let keys = sorted_keys(&self.documents.metadata);
        let ghost wanted = has_file(self@.documents, path@);
        proof {
            lemma_sorted_members(keys@, |k: u64| self@.documents.metadata.contains_key(k));
        }
        let mut at: usize = 0;
        while at < keys.len()
            invariant
                at <= keys.len(),
                keys@ == key_order(self@.documents.metadata),
                is_sorted_domain(keys@, self@.documents.metadata),
                wanted == has_file(self@.documents, path@),
                forall|i: int| 0 <= i < at ==> !wanted(#[trigger] keys@[i]),
            decreases keys.len() - at,
        {
            let key = keys[at];
            proof {
                assert(keys@.contains(key));
            }
            let same = match self.documents.metadata.get(&key) {
                Some(metadata) => match &metadata.file_path {
                    Some(file) => same_text(file.as_str(), path),
                    None => false,
                },
                None => false,
            };
            if same {
                proof {
                    lemma_first_match_found(keys@, wanted, at as int);
                }
                return Some(BufferId(key));
            }
            at = at + 1;
        }
        proof {
            lemma_first_match_none(keys@, wanted);
        }
        None
    }

    /// Makes `buffer` one that a plugin fills.
    fn hide_streaming(&mut self, buffer: BufferId)
        ensures
            final(self)@ == old(self)@.with_documents(old(self)@.documents.streaming(buffer)),
    {
        let ghost before = self@.documents;
        match self.documents.metadata.remove(&buffer.0) {
            Some(mut metadata) => {
                metadata.hidden_from_tabs = true;
                metadata.auto_revert_enabled = false;
                self.documents.metadata.insert(buffer.0, metadata);
                proof {
                    assert(self@.documents.metadata =~= before.streaming(buffer).metadata);
                }
            },
            None => {
                proof {
                    assert(self@.documents.metadata =~= before.metadata);
                }
            },
        }
        if let Some(mut layout) = self.documents.layout.take() {
            let ghost shown = layout@;
            let split = layout.active_split.0.0;
            match layout.view_states.remove(&split) {
                Some(mut state) => {
                    let tab = TabTarget::Buffer(buffer);
                    let keep = |t: &TabTarget| -> (kept: bool)
                        ensures
                            kept == (*t != tab),
                    {
                        *t != tab
                    };
                    retain_where(&mut state.open_buffers, keep, Ghost(tab_is_other(buffer)));
                    layout.view_states.insert(split, state);
                    proof {
                        assert(layout@.view_states =~= before.streaming(
                            buffer,
                        ).layout->0.view_states);
                    }
                },
                None => {
                    proof {
                        assert(layout@.view_states =~= shown.view_states);
                    }
                },
            }
            self.documents.layout = Some(layout);
        }
    }
}

impl EditorModel {
    /// This editor once a part of a buffer was asked for.
    pub open spec fn text_asked(
        self,
        buffer: BufferId,
        start: usize,
        end: usize,
        request_id: u64,
    ) -> EditorModel {
        match self.bytes_of(buffer) {
            Some(bytes) => self.asking(
                EffectModel::ResolveText {
                    callback: JsCallbackId(request_id),
                    text: range_bytes(bytes, start as u64, end as u64),
                },
            ),
            None => self.emitting(
                Effect::Reject {
                    owner: CallbackOwner::Host,
                    callback: JsCallbackId(request_id),
                    reason: Rejection::BufferNotFound { buffer },
                },
            ),
        }
    }

    /// This editor once the number of lines was asked for.
    pub open spec fn line_count_asked(self, buffer: BufferId, request_id: u64) -> EditorModel {
        self.answering(
            request_id,
            Reply::Number(
                match self.bytes_of(self.resolved_buffer(buffer)) {
                    Some(bytes) => Some(line_total(bytes) as u64),
                    None => None,
                },
            ),
        )
    }

    /// This editor once another hunk was to be shown.
    pub open spec fn hunk_moved(self, buffer: BufferId, forward: bool) -> EditorModel {
        match self.active_layout() {
            Some(layout) => self.emitting(
                Effect::CompositeHunk { split: layout.effective_split, buffer, forward },
            ),
            None => self,
        }
    }

    /// This editor with another label of a split.
    pub open spec fn split_labelled(self, split: SplitId, label: Option<String>) -> EditorModel {
        match self.active_layout() {
            Some(layout) => self.with_layout(
                relabelled(layout, LeafId(split), label),
            ),
            None => self,
        }
    }

    /// This editor once the split with a label was asked for.
    pub open spec fn split_found(self, label: Seq<char>, request_id: u64) -> EditorModel {
        self.answering(
            request_id,
            Reply::Number(
                match self.active_layout() {
                    Some(layout) => match first_match(layout.panes, has_label(label)) {
                        Some(pane) => Some(pane.leaf.0.0),
                        None => None,
                    },
                    None => None,
                },
            ),
        )
    }

    /// This editor with the cursors of a buffer shown or hidden.
    pub open spec fn cursors_shown(self, buffer: BufferId, show: bool) -> EditorModel {
        if self.bytes_of(buffer) is Some {
            let state = self.active().documents.buffers[buffer.0];
            self.with_buffer(
                self.active_window,
                buffer,
                BufferState {
                    flags: DisplayFlags {
                        show_cursors: show,
                        cursor_visibility_locked: true,
                        ..state.flags
                    },
                    ..state
                },
            )
        } else {
            self
        }
    }

    /// This editor once a file was to be read-only.
    pub open spec fn read_only_marked(self, path: Seq<char>) -> EditorModel {
        match self.buffer_at(path) {
            Some(buffer) => self.emitting(
                Effect::MarkReadOnly { buffer: BufferId(buffer) },
            ),
            None => self,
        }
    }

    /// This editor once a buffer was to be written.
    pub open spec fn saving(self, buffer: BufferId, path: String) -> EditorModel {
        if self.bytes_of(buffer) is Some {
            self.emitting(Effect::SaveBuffer { buffer, path })
        } else {
            self.telling(Notice::BufferNotFound { buffer })
        }
    }

    /// This editor with a line in the middle of a split.
    pub open spec fn centered(self, split: SplitId, buffer: BufferId, line: u64) -> EditorModel {
        let before = self;
        let leaf = if split.0 == 0 {
            before.active_layout()->0.active_split
        } else {
            LeafId(split)
        };
        match before.active_layout() {
            Some(layout) => if layout.view_states.contains_key(leaf.0.0) {
                before.emitting(
                    Effect::ScrollSplit {
                        buffer: before.resolved_buffer(buffer),
                        split: leaf,
                        line: centered_from(
                            line,
                            layout.view_states[leaf.0.0].viewport.height,
                        ),
                    },
                )
            } else {
                before
            },
            None => before,
        }
    }

    /// This editor with a line of a buffer in view.
    pub open spec fn brought_into_view(self, buffer: BufferId, line: u64) -> EditorModel {
        let leaves = all_leaves_showing(
            self.active().documents,
            self.active_layout()->0,
            buffer,
        );
        if self.bytes_of(buffer) is Some && self.active_layout() is Some
            && leaves.len() > 0 {
            self.asking(EffectModel::ScrollBuffer { buffer, splits: leaves, line })
        } else {
            self
        }
    }

    /// This editor once a buffer was to follow its file.
    pub open spec fn refresh_asked(self, buffer: BufferId, request_id: u64) -> EditorModel {
        let resolved = self.resolved_buffer(buffer);
        let state = self.active().documents.buffers[resolved.0];
        if self.active_layout() is Some && self.bytes_of(
            resolved,
        ) is Some && state.content.path is Some {
            self.emitting(
                Effect::StatBuffer {
                    buffer: resolved,
                    path: state.content.path->0,
                    request_id,
                },
            )
        } else {
            self.answering(request_id, Reply::Number(None))
        }
    }
}

} // verus!
