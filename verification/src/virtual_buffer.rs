//! Virtual buffers: where a plugin's own content is shown.
use std::sync::Arc;
use vstd::prelude::*;

use crate::buffer_text::buffer_line_byte_offset;
use crate::buffer_text::line_offset;
use crate::command::VirtualBufferDisplay;
use crate::command::VirtualBufferRequest;
use crate::command::Payload;
use crate::documents::Pane;
use crate::documents::leaves_showing;
use crate::documents::BufferMetadata;
use crate::documents::BufferState;
use crate::documents::BufferViewState;
use crate::documents::DisplayFlags;
use crate::documents::LayoutModel;
use crate::documents::SplitLayout;
use crate::documents::ViewState;
use crate::documents::ViewStateModel;
use crate::documents::Viewport;
use crate::editor::Editor;
use crate::editor::EditorModel;
use crate::effects::Effect;
use crate::effects::EffectModel;
use crate::effects::FreshSplit;
use crate::effects::Reply;
use crate::effects::VirtualPlace;
use crate::effects::VirtualPlan;
use crate::ids::BufferId;
use crate::ids::LeafId;
use crate::ids::SplitId;
use crate::lists::first_match;
use crate::lists::lemma_first_match_found;
use crate::lists::lemma_first_match_none;
use crate::lists::retain_where;
use crate::mouse::SplitDirection;
use crate::queries::with_group_leaves;
use crate::text::same_text;
use crate::window::DocumentsModel;
use crate::window::Window;
use crate::window_snapshot::key_order;

verus! {

/// The flags of a buffer that is shown as a plugin wants it.
pub open spec fn displayed(
    flags: DisplayFlags,
    display: VirtualBufferDisplay,
    indentation_guide: Option<bool>,
    scrollable: bool,
) -> DisplayFlags {
    DisplayFlags {
        line_numbers: display.show_line_numbers,
        show_cursors: display.show_cursors,
        editing_disabled: display.editing_disabled,
        indentation_guide_override: match indentation_guide {
            Some(enabled) => Some(enabled),
            None => flags.indentation_guide_override,
        },
        scrollable,
        ..flags
    }
}

impl ViewStateModel {
    /// This split with line numbers shown or hidden for a buffer.
    pub open spec fn numbering(self, buffer: BufferId, show: bool) -> ViewStateModel {
        ViewStateModel {
            keyed_states: self.keyed_states.insert(
                buffer.0,
                Arc::new(BufferViewState { show_line_numbers: show, ..self.memory_of(buffer) }),
            ),
            ..self
        }
    }

    /// This split with a buffer in front, and a tab for it. The buffer that was
    /// in front is remembered as it was shown last.
    pub open spec fn fronting(self, buffer: BufferId) -> ViewStateModel {
        let memory = self.memory_of(buffer);
        (ViewStateModel {
            active_buffer: buffer,
            keyed_states: self.keyed_states.insert(
                self.active_buffer.0,
                Arc::new(self.memory_of(self.active_buffer)),
            ).insert(buffer.0, Arc::new(memory)),
            cursor: memory.cursor,
            other_cursors: memory.other_cursors,
            viewport: memory.viewport,
            ..self
        }).with_tab(buffer)
    }

    /// This split with lines wrapped or not, where that is said.
    pub open spec fn wrapping(self, wrap: Option<bool>) -> ViewStateModel {
        match wrap {
            Some(wrap) => ViewStateModel {
                viewport: Viewport { line_wrap_enabled: wrap, ..self.viewport },
                ..self
            },
            None => self,
        }
    }
}

impl LayoutModel {
    /// This layout with a split changed, where it is there.
    pub open spec fn changing_split(
        self,
        leaf: LeafId,
        change: spec_fn(ViewStateModel) -> ViewStateModel,
    ) -> LayoutModel {
        if self.view_states.contains_key(leaf.0.0) {
            LayoutModel {
                view_states: self.view_states.insert(
                    leaf.0.0,
                    change(self.view_states[leaf.0.0]),
                ),
                ..self
            }
        } else {
            self
        }
    }

    /// This layout with `buffer` in the pane of the leaf `leaf`.
    pub open spec fn with_pane_buffer(self, leaf: LeafId, buffer: BufferId) -> LayoutModel {
        LayoutModel {
            panes: self.panes.map_values(
                |p: Pane|
                    if p.leaf == leaf {
                        Pane { buffer, ..p }
                    } else {
                        p
                    },
            ),
            ..self
        }
    }

    /// This layout with another active split.
    pub open spec fn focusing(self, leaf: LeafId) -> LayoutModel {
        LayoutModel { active_split: leaf, ..self }
    }

    /// This layout once `buffer` is in the dock `leaf`. It loses the tab that
    /// it had in the split `source`.
    pub open spec fn docked(
        self,
        buffer: BufferId,
        leaf: LeafId,
        source: LeafId,
        numbers: bool,
    ) -> LayoutModel {
        let shown = self.focusing(leaf).with_pane_buffer(leaf, buffer).changing_split(
            leaf,
            |s: ViewStateModel| s.numbering(buffer, numbers),
        );
        if leaf != source {
            shown.changing_split(source, |s: ViewStateModel| s.without_buffer(buffer))
        } else {
            shown
        }
    }

    /// This layout once `buffer` is in a split of its own, the new leaf
    /// `leaf`.
    pub open spec fn split_off(
        self,
        buffer: BufferId,
        leaf: LeafId,
        plan: FreshSplit,
        width: u16,
        height: u16,
        default_wrap: bool,
    ) -> LayoutModel {
        let without_tab = if leaf != plan.source {
            self.changing_split(plan.source, |s: ViewStateModel| s.without_buffer(buffer))
        } else {
            self
        };
        LayoutModel {
            view_states: without_tab.view_states.insert(
                leaf.0.0,
                ViewStateModel::single(width, height, buffer).wrapping(
                    Some(
                        match plan.line_wrap {
                            Some(wrap) => wrap,
                            None => default_wrap,
                        },
                    ),
                ).numbering(buffer, plan.show_line_numbers),
            ),
            active_split: leaf,
            utility_dock: if plan.dock {
                Some(leaf)
            } else {
                self.utility_dock
            },
            ..without_tab
        }
    }

    /// This layout with `buffer` in front of the split `leaf`.
    pub open spec fn placed_in(
        self,
        buffer: BufferId,
        leaf: LeafId,
        numbers: bool,
        wrap: Option<bool>,
    ) -> LayoutModel {
        self.focusing(leaf).with_pane_buffer(leaf, buffer).changing_split(
            leaf,
            |s: ViewStateModel| s.fronting(buffer).numbering(buffer, numbers).wrapping(wrap),
        )
    }
}

/// Whether a panel has the name `id`.
pub open spec fn is_named(id: Seq<char>) -> spec_fn((String, BufferId)) -> bool {
    |entry: (String, BufferId)| entry.0@ == id
}

/// Whether a panel has another name than `id`.
pub open spec fn is_not_named(id: Seq<char>) -> spec_fn((String, BufferId)) -> bool {
    |entry: (String, BufferId)| entry.0@ != id
}

/// The panels with `buffer` under the name `id`.
pub open spec fn with_panel(panels: Seq<(String, BufferId)>, id: String, buffer: BufferId) -> Seq<
    (String, BufferId),
> {
    panels.filter(is_not_named(id@)).push((id, buffer))
}

impl DocumentsModel {
    /// The buffer of the panel `id`.
    pub open spec fn panel(self, id: Seq<char>) -> Option<BufferId> {
        match first_match(self.panel_ids, is_named(id)) {
            Some((_, buffer)) => Some(buffer),
            None => None,
        }
    }

    /// Where the line `line` of a buffer starts; its end where there is no
    /// such line, and the start where there is no such buffer.
    pub open spec fn line_start(self, buffer: BufferId, line: u32) -> u64 {
        if self.buffers.contains_key(buffer.0) {
            let bytes = self.buffers[buffer.0].content.bytes@;
            match line_offset(bytes, bytes.len() as int, line as nat, false) {
                Some(at) => at as u64,
                None => bytes.len() as u64,
            }
        } else {
            0
        }
    }

    /// These buffers with one that is shown as a plugin wants it.
    pub open spec fn displaying(
        self,
        buffer: BufferId,
        display: VirtualBufferDisplay,
        indentation_guide: Option<bool>,
        scrollable: bool,
    ) -> DocumentsModel {
        if self.buffers.contains_key(buffer.0) {
            let state = self.buffers[buffer.0];
            DocumentsModel {
                buffers: self.buffers.insert(
                    buffer.0,
                    BufferState {
                        flags: displayed(state.flags, display, indentation_guide, scrollable),
                        ..state
                    },
                ),
                ..self
            }
        } else {
            self
        }
    }

    /// These buffers with one that no tab shows.
    pub open spec fn hiding(self, buffer: BufferId) -> DocumentsModel {
        if self.metadata.contains_key(buffer.0) {
            DocumentsModel {
                metadata: self.metadata.insert(
                    buffer.0,
                    BufferMetadata { hidden_from_tabs: true, ..self.metadata[buffer.0] },
                ),
                ..self
            }
        } else {
            self
        }
    }

    /// These buffers with line numbers shown or hidden for one of them in the
    /// active split.
    pub open spec fn numbering_active(self, buffer: BufferId, show: bool) -> DocumentsModel {
        match self.layout {
            Some(layout) => DocumentsModel {
                layout: Some(
                    layout.changing_split(
                        layout.active_split,
                        |s: ViewStateModel| s.numbering(buffer, show),
                    ),
                ),
                ..self
            },
            None => self,
        }
    }

    /// These buffers with one that is found under a name, where it has one.
    pub open spec fn naming(self, id: Option<String>, buffer: BufferId) -> DocumentsModel {
        match id {
            Some(id) => DocumentsModel {
                panel_ids: with_panel(self.panel_ids, id, buffer),
                ..self
            },
            None => self,
        }
    }

    /// These buffers once a virtual buffer was made: it is shown as its plan
    /// says, is found under its name, and has no tab where it is hidden.
    pub open spec fn with_virtual(self, buffer: BufferId, plan: VirtualPlan) -> DocumentsModel {
        let shown = self.displaying(
            buffer,
            plan.display,
            plan.indentation_guide,
            plan.scrollable,
        ).naming(plan.panel_id, buffer);
        match plan.place {
            VirtualPlace::Tab { hidden, .. } => if hidden {
                shown.hiding(buffer)
            } else {
                shown.numbering_active(buffer, plan.display.show_line_numbers)
            },
            _ => shown,
        }
    }
}

impl SplitLayout {
    /// Puts `buffer` into the pane of the leaf `leaf`.
    fn set_pane(&mut self, leaf: LeafId, buffer: BufferId)
        ensures
            final(self)@ == old(self)@.with_pane_buffer(leaf, buffer),
    {
        let ghost before = self@;
        let mut at: usize = 0;
        while at < self.panes.len()
            invariant
                at <= self.panes@.len(),
                self.panes@.len() == before.panes.len(),
                self@ == (LayoutModel { panes: self.panes@, ..before }),
                forall|i: int|
                    0 <= i < at ==> #[trigger] self.panes@[i] == before.with_pane_buffer(
                        leaf,
                        buffer,
                    ).panes[i],
                forall|i: int|
                    at <= i < before.panes.len() ==> #[trigger] self.panes@[i] == before.panes[i],
            decreases self.panes.len() - at,
        {
            if self.panes[at].leaf == leaf {
                self.panes[at].buffer = buffer;
            }
            at = at + 1;
        }
        proof {
            assert(self@.panes =~= before.with_pane_buffer(leaf, buffer).panes);
        }
    }

    /// Shows or hides line numbers for a buffer in a split.
    fn set_numbering(&mut self, leaf: LeafId, buffer: BufferId, show: bool)
        ensures
            final(self)@ == old(self)@.changing_split(
                leaf,
                |s: ViewStateModel| s.numbering(buffer, show),
            ),
    {
        let ghost before = self@;
        match self.view_states.remove(&leaf.0.0) {
            Some(mut state) => {
                state.set_numbering(buffer, show);
                self.view_states.insert(leaf.0.0, state);
                proof {
                    assert(self@.view_states =~= before.changing_split(
                        leaf,
                        |s: ViewStateModel| s.numbering(buffer, show),
                    ).view_states);
                }
            },
            None => {
                proof {
                    assert(self@.view_states =~= before.view_states);
                }
            },
        }
    }

    /// Drops the tab of a buffer in a split.
    fn drop_tab(&mut self, leaf: LeafId, buffer: BufferId)
        ensures
            final(self)@ == old(self)@.changing_split(
                leaf,
                |s: ViewStateModel| s.without_buffer(buffer),
            ),
    {
        let ghost before = self@;
        match self.view_states.remove(&leaf.0.0) {
            Some(mut state) => {
                state.remove_buffer(buffer);
                self.view_states.insert(leaf.0.0, state);
                proof {
                    assert(self@.view_states =~= before.changing_split(
                        leaf,
                        |s: ViewStateModel| s.without_buffer(buffer),
                    ).view_states);
                }
            },
            None => {
                proof {
                    assert(self@.view_states =~= before.view_states);
                }
            },
        }
    }

    /// Puts `buffer` in front of the split `leaf`.
    fn place_in(&mut self, buffer: BufferId, leaf: LeafId, numbers: bool, wrap: Option<bool>)
        ensures
            final(self)@ == old(self)@.placed_in(buffer, leaf, numbers, wrap),
    {
        self.active_split = leaf;
        self.set_pane(leaf, buffer);
        let ghost before = self@;
        let ghost change = |s: ViewStateModel|
            s.fronting(buffer).numbering(buffer, numbers).wrapping(wrap);
        match self.view_states.remove(&leaf.0.0) {
            Some(mut state) => {
                state.bring_to_front(buffer);
                state.set_numbering(buffer, numbers);
                if let Some(wrap) = wrap {
                    state.viewport.line_wrap_enabled = wrap;
                }
                self.view_states.insert(leaf.0.0, state);
                proof {
                    assert(self@.view_states =~= before.changing_split(leaf, change).view_states);
                }
            },
            None => {
                proof {
                    assert(self@.view_states =~= before.view_states);
                }
            },
        }
    }

    /// Gives `buffer` the new leaf `leaf` for itself.
    fn split_off(
        &mut self,
        buffer: BufferId,
        leaf: LeafId,
        plan: &FreshSplit,
        width: u16,
        height: u16,
        default_wrap: bool,
    )
        ensures
            final(self)@ == old(self)@.split_off(
                buffer,
                leaf,
                *plan,
                width,
                height,
                default_wrap,
            ),
    {
        if leaf != plan.source {
            self.drop_tab(plan.source, buffer);
        }
        let ghost before = self@;
        let mut state = ViewState::with_buffer(width, height, buffer);
        state.viewport.line_wrap_enabled = match plan.line_wrap {
            Some(wrap) => wrap,
            None => default_wrap,
        };
        state.set_numbering(buffer, plan.show_line_numbers);
        let ghost made = state@;
        self.view_states.insert(leaf.0.0, state);
        self.active_split = leaf;
        if plan.dock {
            self.utility_dock = Some(leaf);
        }
        proof {
            assert(self@.view_states =~= before.view_states.insert(leaf.0.0, made));
        }
    }
}

impl ViewState {
    /// What this split remembers of a buffer, or would.
    fn recall(&self, buffer: BufferId) -> (memory: BufferViewState)
        ensures
            memory == self@.memory_of(buffer),
    {
        let mut memory = match self.keyed_states.get(&buffer.0) {
            Some(state) => state.duplicate(),
            None => BufferViewState::new(self.viewport.width, self.viewport.height),
        };
        if buffer == self.active_buffer {
            memory.cursor = self.cursor;
            memory.other_cursors = match &self.other_cursors {
                Some(cursors) => Some(cursors.clone()),
                None => None,
            };
            memory.viewport = self.viewport;
        }
        memory
    }

    /// Shows or hides line numbers for a buffer.
    fn set_numbering(&mut self, buffer: BufferId, show: bool)
        ensures
            final(self)@ == old(self)@.numbering(buffer, show),
    {
        let mut memory = self.recall(buffer);
        memory.show_line_numbers = show;
        self.keyed_states.insert(buffer.0, Arc::new(memory));
    }

    /// Puts a buffer in front, and gives it a tab.
    fn bring_to_front(&mut self, buffer: BufferId)
        ensures
            final(self)@ == old(self)@.fronting(buffer),
    {
        let left = self.recall(self.active_buffer);
        let memory = self.recall(buffer);
        self.keyed_states.insert(self.active_buffer.0, Arc::new(left));
        self.active_buffer = buffer;
        self.cursor = memory.cursor;
        self.other_cursors = match &memory.other_cursors {
            Some(cursors) => Some(cursors.clone()),
            None => None,
        };
        self.viewport = memory.viewport;
        self.keyed_states.insert(buffer.0, Arc::new(memory));
        self.add_buffer(buffer);
    }
}

impl Window {
    /// The buffer of the panel `id`.
    fn find_panel(&self, id: &str) -> (buffer: Option<BufferId>)
        ensures
            buffer == self@.documents.panel(id@),
    {
        let ghost wanted = is_named(id@);
        let mut at: usize = 0;
        while at < self.documents.panel_ids.len()
            invariant
                at <= self.documents.panel_ids.len(),
                wanted == is_named(id@),
                forall|i: int| 0 <= i < at ==> !wanted(#[trigger] self.documents.panel_ids@[i]),
            decreases self.documents.panel_ids.len() - at,
        {
            if same_text(self.documents.panel_ids[at].0.as_str(), id) {
                proof {
                    lemma_first_match_found(self.documents.panel_ids@, wanted, at as int);
                }
                return Some(self.documents.panel_ids[at].1);
            }
            at = at + 1;
        }
        proof {
            lemma_first_match_none(self.documents.panel_ids@, wanted);
        }
        None
    }

    /// Drops the name `id` of a panel.
    fn drop_panel(&mut self, id: &str)
        ensures
            final(self)@ == old(self)@.with_documents(
                DocumentsModel {
                    panel_ids: old(self)@.documents.panel_ids.filter(is_not_named(id@)),
                    ..old(self)@.documents
                },
            ),
    {
        let keep = |entry: &(String, BufferId)| -> (kept: bool)
            ensures
                kept == (entry.0@ != id@),
        {
            !same_text(entry.0.as_str(), id)
        };
        retain_where(&mut self.documents.panel_ids, keep, Ghost(is_not_named(id@)));
    }

    /// Where the line `line` of a buffer starts.
    fn line_start(&self, buffer: BufferId, line: u32) -> (start: u64)
        ensures
            start == self@.documents.line_start(buffer, line),
    {
        match self.documents.buffers.get(&buffer.0) {
            Some(state) => {
                let len: usize = state.content.bytes.len();
                match buffer_line_byte_offset(&state.content.bytes, len, line as usize, false) {
                    Some(at) => at as u64,
                    None => len as u64,
                }
            },
            None => 0,
        }
    }

    /// Shows a buffer as a plugin wants it.
    fn configure_vbuf_display(
        &mut self,
        buffer: BufferId,
        display: VirtualBufferDisplay,
        indentation_guide: Option<bool>,
        scrollable: bool,
    )
        ensures
            final(self)@ == old(self)@.with_documents(
                old(self)@.documents.displaying(buffer, display, indentation_guide, scrollable),
            ),
    {
        let ghost before = self@.documents;
        match self.documents.buffers.remove(&buffer.0) {
            Some(mut state) => {
                state.flags.line_numbers = display.show_line_numbers;
                state.flags.show_cursors = display.show_cursors;
                state.flags.editing_disabled = display.editing_disabled;
                if let Some(enabled) = indentation_guide {
                    state.flags.indentation_guide_override = Some(enabled);
                }
                state.flags.scrollable = scrollable;
                self.documents.buffers.insert(buffer.0, state);
                proof {
                    assert(self@.documents.buffers =~= before.displaying(
                        buffer,
                        display,
                        indentation_guide,
                        scrollable,
                    ).buffers);
                }
            },
            None => {
                proof {
                    assert(self@.documents.buffers =~= before.buffers);
                }
            },
        }
    }

    /// Keeps a buffer out of the tab bar.
    fn hide_from_tabs(&mut self, buffer: BufferId)
        ensures
            final(self)@ == old(self)@.with_documents(old(self)@.documents.hiding(buffer)),
    {
        let ghost before = self@.documents;
        match self.documents.metadata.remove(&buffer.0) {
            Some(mut metadata) => {
                metadata.hidden_from_tabs = true;
                self.documents.metadata.insert(buffer.0, metadata);
                proof {
                    assert(self@.documents.metadata =~= before.hiding(buffer).metadata);
                }
            },
            None => {
                proof {
                    assert(self@.documents.metadata =~= before.metadata);
                }
            },
        }
    }

    /// Shows or hides line numbers for a buffer in the active split.
    fn number_active(&mut self, buffer: BufferId, show: bool)
        ensures
            final(self)@ == old(self)@.with_documents(
                old(self)@.documents.numbering_active(buffer, show),
            ),
    {
        if let Some(mut layout) = self.documents.layout.take() {
            let leaf = layout.active_split;
            layout.set_numbering(leaf, buffer, show);
            self.documents.layout = Some(layout);
        }
    }

    /// Sets a new virtual buffer up as its plan says.
    fn set_up_virtual(&mut self, buffer: BufferId, plan: &VirtualPlan)
        ensures
            final(self)@ == old(self)@.with_documents(
                old(self)@.documents.with_virtual(buffer, *plan),
            ),
    {
        self.configure_vbuf_display(
            buffer,
            plan.display,
            plan.indentation_guide,
            plan.scrollable,
        );
        if let Some(id) = &plan.panel_id {
            self.drop_panel(id.as_str());
            self.documents.panel_ids.push((id.clone(), buffer));
        }
        if let VirtualPlace::Tab { hidden, .. } = &plan.place {
            if *hidden {
                self.hide_from_tabs(buffer);
            } else {
                self.number_active(buffer, plan.display.show_line_numbers);
            }
        }
    }
}

/// The name of the role of the utility dock.
pub open spec fn is_dock_role(role: Option<String>) -> bool {
    role matches Some(role) && role@ == "utility_dock"@
}

/// The direction in which a split is made.
pub open spec fn split_direction(direction: Option<String>) -> SplitDirection {
    if direction is Some && direction->0@ == "vertical"@ {
        SplitDirection::Vertical
    } else {
        SplitDirection::Horizontal
    }
}

impl EditorModel {
    /// This editor with a request for a virtual buffer answered, where an
    /// answer is asked for.
    pub open spec fn handing_buffer(
        self,
        request_id: Option<u64>,
        buffer: BufferId,
        split: Option<LeafId>,
    ) -> EditorModel {
        match request_id {
            Some(id) => self.answering(id, Reply::VirtualBuffer { buffer, split }),
            None => self,
        }
    }

    /// This editor with other buffers in its active window.
    pub open spec fn with_active_documents(self, documents: DocumentsModel) -> EditorModel {
        self.with_active(self.active().with_documents(documents))
    }

    /// This editor with a panel that is there filled anew and shown.
    pub open spec fn panel_updated(
        self,
        buffer: BufferId,
        entries: Payload,
        request_id: Option<u64>,
    ) -> EditorModel {
        let filled = self.emitting(Effect::SetVirtualContent { buffer, entries });
        let layout = self.active().documents.layout;
        let leaves = leaves_showing(layout->0.panes, buffer);
        if layout is Some && leaves.len() > 0 {
            filled.with_layout(layout->0.focusing(leaves[0])).emitting(
                Effect::SetPaneBuffer { window: self.active_window, leaf: leaves[0], buffer },
            ).handing_buffer(request_id, buffer, Some(leaves[0]))
        } else {
            filled.handing_buffer(request_id, buffer, None)
        }
    }
}

impl Editor {
    /// Answers a request for a virtual buffer, where an answer is asked for.
    fn hand_buffer(&mut self, request_id: Option<u64>, buffer: BufferId, split: Option<LeafId>)
        ensures
            final(self)@ == old(self)@.handing_buffer(request_id, buffer, split),
    {
        if let Some(id) = request_id {
            self.resolve_json_callback(id, Reply::VirtualBuffer { buffer, split });
        }
    }

    /// Makes a virtual buffer in the active split, or one that no tab shows.
    pub fn handle_create_virtual_buffer_with_content(
        &mut self,
        buffer: VirtualBufferRequest,
        hidden_from_tabs: bool,
        initial_cursor_line: Option<u32>,
        indentation_guide: Option<bool>,
        request_id: Option<u64>,
    )
        ensures
            final(self)@ == old(self)@.tabbing(buffer, hidden_from_tabs, initial_cursor_line, indentation_guide, request_id),
    {
        let plan = VirtualPlan {
            display: buffer.display,
            indentation_guide,
            scrollable: true,
            panel_id: None,
            place: VirtualPlace::Tab { hidden: hidden_from_tabs, initial_cursor_line },
            request_id,
        };
        self.emit(Effect::CreateVirtualBuffer { buffer, detached: hidden_from_tabs, plan });
    }

    /// Makes a virtual buffer in a split that is there.
    pub fn handle_create_virtual_buffer_in_existing_split(
        &mut self,
        buffer: VirtualBufferRequest,
        split: SplitId,
        line_wrap: Option<bool>,
        initial_cursor_line: Option<u32>,
        request_id: Option<u64>,
    )
        ensures
            final(self)@ == old(self)@.placing(buffer, split, line_wrap, initial_cursor_line, request_id),
    {
        let plan = VirtualPlan {
            display: buffer.display,
            indentation_guide: None,
            scrollable: true,
            panel_id: None,
            place: VirtualPlace::Leaf { leaf: LeafId(split), line_wrap, initial_cursor_line },
            request_id,
        };
        self.emit(Effect::CreateVirtualBuffer { buffer, detached: false, plan });
    }

    /// Fills a panel that is there anew, and shows it.
    fn update_existing_vbuf_panel(
        &mut self,
        buffer: BufferId,
        entries: Payload,
        request_id: Option<u64>,
    )
        requires
            old(self)@.has_active(),
        ensures
            final(self)@ == old(self)@.panel_updated(buffer, entries, request_id),
    {
        let id = self.active_window;
        self.emit(Effect::SetVirtualContent { buffer, entries });
        let ghost filled = self@;
        let mut first: Option<LeafId> = None;
        if let Some(mut window) = self.take_window(id) {
            if let Some(mut layout) = window.documents.layout.take() {
                let splits = layout.splits_for_buffer(buffer);
                if splits.len() > 0 {
                    first = Some(splits[0]);
                    layout.active_split = splits[0];
                }
                window.documents.layout = Some(layout);
            }
            self.put_back(id, window, Ghost(filled));
        }
        proof {
            if first is None {
                assert(filled.with_window(id, filled.window(id)).windows =~= filled.windows);
            }
        }
        if let Some(leaf) = first {
            self.emit(Effect::SetPaneBuffer { window: id, leaf, buffer });
        }
        self.hand_buffer(request_id, buffer, first);
    }
}

impl EditorModel {
    /// This editor once a virtual buffer was asked for in a split of its own.
    /// Where there is a utility dock that it is for, it goes there; where its
    /// panel is there, that is filled anew; and else it gets a split.
    pub open spec fn splitting_for(
        self,
        buffer: VirtualBufferRequest,
        ratio_bits: u32,
        direction: Option<String>,
        panel_id: Option<String>,
        line_wrap: Option<bool>,
        before: bool,
        role: Option<String>,
        scrollable: Option<bool>,
        request_id: Option<u64>,
    ) -> EditorModel {
        let documents = self.active().documents;
        let layout = documents.layout->0;
        let panel = match panel_id {
            Some(id) => documents.panel(id@),
            None => None,
        };
        let alive = panel is Some && documents.buffers.contains_key((panel->0).0);
        let scrolls = match scrollable {
            Some(scrollable) => scrollable,
            None => true,
        };
        if !self.has_active() || documents.layout is None {
            self
        } else if is_dock_role(role) && layout.utility_dock is Some {
            self.emitting(
                Effect::CreateVirtualBuffer {
                    buffer,
                    detached: false,
                    plan: VirtualPlan {
                        display: buffer.display,
                        indentation_guide: None,
                        scrollable: scrolls,
                        panel_id,
                        place: VirtualPlace::Dock {
                            leaf: layout.utility_dock->0,
                            source: layout.active_split,
                        },
                        request_id,
                    },
                },
            )
        } else if alive {
            self.panel_updated(panel->0, buffer.entries, request_id)
        } else {
            let cleaned = if panel is Some {
                self.with_active_documents(
                    DocumentsModel {
                        panel_ids: documents.panel_ids.filter(is_not_named(panel_id->0@)),
                        ..documents
                    },
                )
            } else {
                self
            };
            cleaned.emitting(
                Effect::CreateVirtualBuffer {
                    buffer,
                    detached: false,
                    plan: VirtualPlan {
                        display: buffer.display,
                        indentation_guide: None,
                        scrollable: scrolls,
                        panel_id,
                        place: VirtualPlace::Fresh(
                            FreshSplit {
                                source: layout.active_split,
                                direction: split_direction(direction),
                                ratio_bits,
                                before,
                                dock: is_dock_role(role),
                                line_wrap,
                                show_line_numbers: buffer.display.show_line_numbers,
                                request_id,
                            },
                        ),
                        request_id,
                    },
                },
            )
        }
    }

    /// This editor with the cursor of a buffer on the line where it starts,
    /// where one is given.
    pub open spec fn starting_at(
        self,
        buffer: BufferId,
        line: Option<u32>,
        splits: Seq<LeafId>,
    ) -> EditorModel {
        match line {
            Some(line) => self.asking(
                EffectModel::SetCursor {
                    buffer,
                    position: self.active().documents.line_start(buffer, line),
                    splits,
                },
            ),
            None => self,
        }
    }

    /// This editor once a virtual buffer has its tab: its cursor is where it was
    /// to start, in every split that shows it.
    pub open spec fn tab_ready(
        self,
        buffer: BufferId,
        initial_cursor_line: Option<u32>,
        request_id: Option<u64>,
    ) -> EditorModel {
        match self.active_layout() {
            Some(layout) => self.starting_at(
                buffer,
                initial_cursor_line,
                leaves_showing(layout.panes, buffer),
            ).handing_buffer(request_id, buffer, None),
            None => self,
        }
    }

    /// This editor once a virtual buffer was filled: it is shown where its
    /// plan says.
    pub open spec fn virtual_shown(self, buffer: BufferId, plan: VirtualPlan) -> EditorModel {
        let documents = self.active().documents;
        let layout = documents.layout->0;
        let id = self.active_window;
        if !self.has_active() || documents.layout is None {
            self
        } else {
            match plan.place {
                VirtualPlace::Tab { hidden, initial_cursor_line } => if hidden {
                    self.tab_ready(buffer, initial_cursor_line, plan.request_id)
                } else {
                    self.emitting(
                        Effect::ShowVirtualBuffer {
                            buffer,
                            initial_cursor_line,
                            request_id: plan.request_id,
                        },
                    )
                },
                VirtualPlace::Dock { leaf, source } => self.with_layout(
                    layout.docked(buffer, leaf, source, plan.display.show_line_numbers),
                ).emitting(Effect::SetPaneBuffer { window: id, leaf, buffer }).handing_buffer(
                    plan.request_id,
                    buffer,
                    Some(leaf),
                ),
                VirtualPlace::Fresh(fresh) => self.emitting(
                    Effect::SplitForBuffer { buffer, plan: fresh },
                ),
                VirtualPlace::Leaf { leaf, line_wrap, initial_cursor_line } => {
                    let placed = layout.placed_in(
                        buffer,
                        leaf,
                        plan.display.show_line_numbers,
                        line_wrap,
                    );
                    self.with_layout(placed).emitting(
                        Effect::SetPaneBuffer { window: id, leaf, buffer },
                    ).starting_at(
                        buffer,
                        initial_cursor_line,
                        with_group_leaves(
                            documents.groups,
                            placed,
                            leaves_showing(placed.panes, buffer),
                            key_order(documents.groups),
                            buffer,
                        ),
                    ).handing_buffer(plan.request_id, buffer, Some(leaf))
                },
            }
        }
    }

    /// This editor once the split for a virtual buffer was made, or could not
    /// be.
    pub open spec fn split_done(
        self,
        buffer: BufferId,
        plan: FreshSplit,
        made: Option<LeafId>,
        default_wrap: bool,
    ) -> EditorModel {
        match made {
            Some(leaf) => match self.active_layout() {
                Some(layout) => self.with_layout(
                    layout.split_off(
                        buffer,
                        leaf,
                        plan,
                        self.config.terminal_width,
                        self.config.terminal_height,
                        default_wrap,
                    ),
                ),
                None => self,
            },
            None => self.emitting(Effect::SetActiveBuffer { buffer }),
        }.handing_buffer(plan.request_id, buffer, made)
    }
}

impl Editor {
    /// Makes a virtual buffer in a split of its own, in the utility dock, or
    /// in the panel that it has already.
    pub fn handle_create_virtual_buffer_in_split(
        &mut self,
        buffer: VirtualBufferRequest,
        ratio_bits: u32,
        direction: Option<String>,
        panel_id: Option<String>,
        line_wrap: Option<bool>,
        before: bool,
        role: Option<String>,
        scrollable: Option<bool>,
        request_id: Option<u64>,
    )
        ensures
            final(self)@ == old(self)@.splitting_for(
                buffer,
                ratio_bits,
                direction,
                panel_id,
                line_wrap,
                before,
                role,
                scrollable,
                request_id,
            ),
    {
        let ghost start = self@;
        let id = self.active_window;
        let scrolls = match scrollable {
            Some(scrollable) => scrollable,
            None => true,
        };
        let dock = match &role {
            Some(role) => same_text(role.as_str(), "utility_dock"),
            None => false,
        };
        let (source, existing_dock) = match self.windows.get(&id.0) {
            Some(window) => match &window.documents.layout {
                Some(layout) => (layout.active_split, layout.utility_dock),
                None => {
                    return ;
                },
            },
            None => {
                return ;
            },
        };
        if dock {
            if let Some(leaf) = existing_dock {
                let plan = VirtualPlan {
                    display: buffer.display,
                    indentation_guide: None,
                    scrollable: scrolls,
                    panel_id,
                    place: VirtualPlace::Dock { leaf, source },
                    request_id,
                };
                self.emit(Effect::CreateVirtualBuffer { buffer, detached: false, plan });
                return ;
            }
        }
        if let Some(name) = &panel_id {
            let (panel, alive) = self.look_up_panel(name.as_str());
            if let Some(existing) = panel {
                if alive {
                    self.update_existing_vbuf_panel(existing, buffer.entries, request_id);
                    return ;
                }
                if let Some(mut window) = self.take_window(id) {
                    window.drop_panel(name.as_str());
                    self.put_back(id, window, Ghost(start));
                }
            }
        }
        let direction = match &direction {
            Some(direction) => if same_text(direction.as_str(), "vertical") {
                SplitDirection::Vertical
            } else {
                SplitDirection::Horizontal
            },
            None => SplitDirection::Horizontal,
        };
        let plan = VirtualPlan {
            display: buffer.display,
            indentation_guide: None,
            scrollable: scrolls,
            panel_id,
            place: VirtualPlace::Fresh(
                FreshSplit {
                    source,
                    direction,
                    ratio_bits,
                    before,
                    dock,
                    line_wrap,
                    show_line_numbers: buffer.display.show_line_numbers,
                    request_id,
                },
            ),
            request_id,
        };
        self.emit(Effect::CreateVirtualBuffer { buffer, detached: false, plan });
    }

    /// The buffer of a panel of the active window, and whether it is still
    /// there.
    fn look_up_panel(&self, name: &str) -> (found: (Option<BufferId>, bool))
        requires
            self@.has_active(),
        ensures
            found.0 == self@.active().documents.panel(name@),
            found.1 == (found.0 is Some && self@.active().documents.buffers.contains_key(
                (found.0->0).0,
            )),
    {
        match self.windows.get(&self.active_window.0) {
            Some(window) => match window.find_panel(name) {
                Some(buffer) => (
                    Some(buffer),
                    window.documents.buffers.contains_key(&buffer.0),
                ),
                None => (None, false),
            },
            None => (None, false),
        }
    }

    /// Sets a virtual buffer up that was just made.
    pub fn virtual_buffer_created(&mut self, buffer: BufferId, plan: &VirtualPlan)
        ensures
            final(self)@ == if old(self)@.has_active() {
                old(self)@.with_active_documents(
                    old(self)@.active().documents.with_virtual(buffer, *plan),
                )
            } else {
                old(self)@
            },
    {
        let id = self.active_window;
        let ghost before = self@;
        if let Some(mut window) = self.take_window(id) {
            window.set_up_virtual(buffer, plan);
            self.put_back(id, window, Ghost(before));
        }
    }

    /// Puts the cursor of a buffer on the line where it starts.
    fn start_at(&mut self, buffer: BufferId, line: Option<u32>, splits: Vec<LeafId>)
        requires
            old(self)@.has_active(),
        ensures
            final(self)@ == old(self)@.starting_at(buffer, line, splits@),
    {
        if let Some(line) = line {
            let position: u64 = match self.windows.get(&self.active_window.0) {
                Some(window) => window.line_start(buffer, line),
                None => 0,
            };
            self.emit(Effect::SetCursor { buffer, position, splits });
        }
    }

    /// Takes the layout of the active window out, to be put back.
    fn take_layout(&mut self) -> (layout: Option<SplitLayout>)
        ensures
            match layout {
                Some(l) => {
                    &&& old(self)@.active_layout() == Some(l@)
                    &&& final(self)@.active_window == old(self)@.active_window
                    &&& final(self)@.has_active()
                    &&& final(self)@.active().documents.groups
                        == old(self)@.active().documents.groups
                    &&& forall|m: LayoutModel| #[trigger]
                        final(self)@.with_layout(m) == old(self)@.with_layout(m)
                },
                None => old(self)@.active_layout() is None && final(self)@ == old(self)@,
            },
    {
        let id = self.active_window;
        let ghost before = self@;
        match self.take_window(id) {
            Some(mut window) => {
                let layout = window.documents.layout.take();
                self.put_back(id, window, Ghost(before));
                proof {
                    if layout is None {
                        assert(before.with_window(id, before.window(id)).windows
                            =~= before.windows);
                    } else {
                        assert forall|m: LayoutModel| #[trigger]
                            self@.with_layout(m) == before.with_layout(m) by {
                            assert(self@.with_layout(m).windows =~= before.with_layout(m).windows);
                        }
                    }
                }
                layout
            },
            None => None,
        }
    }

    /// Gives the active window a layout.
    fn put_layout(&mut self, layout: SplitLayout)
        requires
            old(self)@.has_active(),
        ensures
            final(self)@ == old(self)@.with_layout(layout@),
    {
        let id = self.active_window;
        let ghost before = self@;
        if let Some(mut window) = self.take_window(id) {
            window.documents.layout = Some(layout);
            self.put_back(id, window, Ghost(before));
        }
    }

    /// Goes on with a virtual buffer that has its tab, once the tab is shown
    /// where it is to be shown.
    pub fn virtual_buffer_shown(
        &mut self,
        buffer: BufferId,
        initial_cursor_line: Option<u32>,
        request_id: Option<u64>,
    )
        ensures
            final(self)@ == old(self)@.tab_ready(buffer, initial_cursor_line, request_id),
    {
        let splits = match self.windows.get(&self.active_window.0) {
            Some(window) => match &window.documents.layout {
                Some(layout) => layout.splits_for_buffer(buffer),
                None => {
                    return ;
                },
            },
            None => {
                return ;
            },
        };
        self.start_at(buffer, initial_cursor_line, splits);
        self.hand_buffer(request_id, buffer, None);
    }

    /// Shows a virtual buffer that was filled.
    pub fn virtual_buffer_filled(&mut self, buffer: BufferId, plan: VirtualPlan)
        ensures
            final(self)@ == old(self)@.virtual_shown(buffer, plan),
    {
        let id = self.active_window;
        let mut layout = match self.take_layout() {
            Some(layout) => layout,
            None => {
                return ;
            },
        };
        let numbers = plan.display.show_line_numbers;
        let ghost before = old(self)@;
        let ghost shown = layout@;
        match plan.place {
            VirtualPlace::Tab { hidden, initial_cursor_line } => {
                self.put_layout(layout);
                proof {
                    assert(before.with_layout(shown).windows =~= before.windows);
                }
                if hidden {
                    self.virtual_buffer_shown(buffer, initial_cursor_line, plan.request_id);
                } else {
                    self.emit(
                        Effect::ShowVirtualBuffer {
                            buffer,
                            initial_cursor_line,
                            request_id: plan.request_id,
                        },
                    );
                }
            },
            VirtualPlace::Dock { leaf, source } => {
                layout.active_split = leaf;
                layout.set_pane(leaf, buffer);
                layout.set_numbering(leaf, buffer, numbers);
                if leaf != source {
                    layout.drop_tab(source, buffer);
                }
                self.put_layout(layout);
                self.emit(Effect::SetPaneBuffer { window: id, leaf, buffer });
                self.hand_buffer(plan.request_id, buffer, Some(leaf));
            },
            VirtualPlace::Fresh(fresh) => {
                self.put_layout(layout);
                proof {
                    assert(before.with_layout(shown).windows =~= before.windows);
                }
                self.emit(Effect::SplitForBuffer { buffer, plan: fresh });
            },
            VirtualPlace::Leaf { leaf, line_wrap, initial_cursor_line } => {
                layout.place_in(buffer, leaf, numbers, line_wrap);
                let splits = layout.splits_for_buffer(buffer);
                let splits = match self.windows.get(&id.0) {
                    Some(window) => window.add_group_leaves(&layout, splits, buffer),
                    None => splits,
                };
                self.put_layout(layout);
                self.emit(Effect::SetPaneBuffer { window: id, leaf, buffer });
                self.start_at(buffer, initial_cursor_line, splits);
                self.hand_buffer(plan.request_id, buffer, Some(leaf));
            },
        }
    }

    /// Goes on with a virtual buffer once its split was made, or could not be.
    pub fn virtual_split_made(
        &mut self,
        buffer: BufferId,
        plan: &FreshSplit,
        made: Option<LeafId>,
        default_wrap: bool,
    )
        ensures
            final(self)@ == old(self)@.split_done(buffer, *plan, made, default_wrap),
    {
        match made {
            Some(leaf) => {
                let width = self.config.terminal_width;
                let height = self.config.terminal_height;
                if let Some(mut layout) = self.take_layout() {
                    layout.split_off(buffer, leaf, plan, width, height, default_wrap);
                    self.put_layout(layout);
                }
            },
            None => {
                self.emit(Effect::SetActiveBuffer { buffer });
            },
        }
        self.hand_buffer(plan.request_id, buffer, made);
    }
}

impl EditorModel {
    /// This editor once a virtual buffer was asked for in the active split.
    pub open spec fn tabbing(
        self,
        buffer: VirtualBufferRequest,
        hidden_from_tabs: bool,
        initial_cursor_line: Option<u32>,
        indentation_guide: Option<bool>,
        request_id: Option<u64>,
    ) -> EditorModel {
        self.emitting(
            Effect::CreateVirtualBuffer {
                buffer,
                detached: hidden_from_tabs,
                plan: VirtualPlan {
                    display: buffer.display,
                    indentation_guide,
                    scrollable: true,
                    panel_id: None,
                    place: VirtualPlace::Tab { hidden: hidden_from_tabs, initial_cursor_line },
                    request_id,
                },
            },
        )
    }

    /// This editor once a virtual buffer was asked for in a split that is there.
    pub open spec fn placing(
        self,
        buffer: VirtualBufferRequest,
        split: SplitId,
        line_wrap: Option<bool>,
        initial_cursor_line: Option<u32>,
        request_id: Option<u64>,
    ) -> EditorModel {
        self.emitting(
            Effect::CreateVirtualBuffer {
                buffer,
                detached: false,
                plan: VirtualPlan {
                    display: buffer.display,
                    indentation_guide: None,
                    scrollable: true,
                    panel_id: None,
                    place: VirtualPlace::Leaf {
                        leaf: LeafId(split),
                        line_wrap,
                        initial_cursor_line,
                    },
                    request_id,
                },
            },
        )
    }
}

} // verus!
