//! The state of the mouse: running drags, and who owns each pressed button.
use vstd::prelude::*;

use crate::geometry::Rect;
use crate::ids::BufferId;
use crate::ids::LeafId;
use crate::ids::SplitId;
use crate::ids::TerminalId;

verus! {

/// The mouse buttons.
#[derive(Clone, Copy, Debug, PartialEq, Eq, Hash, Structural)]
pub enum MouseButton {
    Left,
    Right,
    Middle,
}

/// The owner chosen when a button goes down. It stays fixed until the matching
/// release, so that no modifier change, overlay or pane crossing splits one
/// gesture between the editor and a PTY.
#[derive(Clone, Copy, Debug, PartialEq, Eq, Structural)]
pub enum MouseGestureOwner {
    Fresh,
    Terminal { split_id: LeafId, terminal_id: TerminalId, content_rect: Rect },
}

/// The direction of a split.
#[derive(Clone, Copy, Debug, PartialEq, Eq, Structural)]
pub enum SplitDirection {
    Horizontal,
    Vertical,
}

/// The width of the file explorer.
#[derive(Clone, Copy, Debug, PartialEq, Eq, Structural)]
pub enum ExplorerWidth {
    Percent(u8),
    Columns(u16),
}

/// A tab that is being dragged.
#[derive(Clone, Copy, Debug, PartialEq, Eq)]
pub struct TabDragState {
    pub buffer_id: BufferId,
    pub source_split: LeafId,
    pub start_position: (u16, u16),
}

/// The UI element under the pointer, by the number that the view gave it.
#[derive(Clone, Copy, Debug, PartialEq, Eq, Structural)]
pub struct HoverTarget(pub u64);

/// A pointer that rests over text: the byte under it, when it came to rest (in
/// milliseconds), the cell, and the buffer that is shown there.
#[derive(Clone, Copy, Debug, PartialEq, Eq, Structural)]
pub struct LspHover {
    pub byte_position: u64,
    pub since_ms: u64,
    pub screen_x: u16,
    pub screen_y: u16,
    pub buffer_id: BufferId,
}

/// The owners of the buttons that are down, each button on its own.
#[derive(Clone, Copy, Debug, PartialEq, Eq, Structural)]
pub struct GestureCaptures {
    left: Option<MouseGestureOwner>,
    right: Option<MouseGestureOwner>,
    middle: Option<MouseGestureOwner>,
}

impl View for GestureCaptures {
    type V = Map<MouseButton, MouseGestureOwner>;

    closed spec fn view(&self) -> Map<MouseButton, MouseGestureOwner> {
        Map::new(|b: MouseButton| self.slot(b) is Some, |b: MouseButton| self.slot(b)->0)
    }
}

impl GestureCaptures {
    closed spec fn slot(&self, button: MouseButton) -> Option<MouseGestureOwner> {
        match button {
            MouseButton::Left => self.left,
            MouseButton::Right => self.right,
            MouseButton::Middle => self.middle,
        }
    }

    /// No button is down.
    pub closed spec fn none() -> GestureCaptures {
        GestureCaptures { left: None, right: None, middle: None }
    }

    /// Where no button is down, none has an owner.
    pub proof fn lemma_none_is_empty()
        ensures
            GestureCaptures::none()@ == Map::<MouseButton, MouseGestureOwner>::empty(),
    {
        assert(GestureCaptures::none()@ =~= Map::<MouseButton, MouseGestureOwner>::empty());
    }

    /// No button is down.
    pub fn new() -> (captures: GestureCaptures)
        ensures
            captures == GestureCaptures::none(),
            captures@ == Map::<MouseButton, MouseGestureOwner>::empty(),
    {
        let captures = GestureCaptures { left: None, right: None, middle: None };
        proof {
            assert(captures@ =~= Map::<MouseButton, MouseGestureOwner>::empty());
        }
        captures
    }

    /// Gives `button` to `owner`.
    pub fn insert(&mut self, button: MouseButton, owner: MouseGestureOwner)
        ensures
            final(self)@ == old(self)@.insert(button, owner),
    {
        match button {
            MouseButton::Left => {
                self.left = Some(owner);
            },
            MouseButton::Right => {
                self.right = Some(owner);
            },
            MouseButton::Middle => {
                self.middle = Some(owner);
            },
        }
        proof {
            assert(self@ =~= old(self)@.insert(button, owner));
        }
    }

    /// The owner of `button`.
    pub fn get(&self, button: MouseButton) -> (owner: Option<MouseGestureOwner>)
        ensures
            owner == (if self@.contains_key(button) {
                Some(self@[button])
            } else {
                None
            }),
    {
        match button {
            MouseButton::Left => self.left,
            MouseButton::Right => self.right,
            MouseButton::Middle => self.middle,
        }
    }

    /// Takes `button` from its owner.
    pub fn remove(&mut self, button: MouseButton) -> (owner: Option<MouseGestureOwner>)
        ensures
            owner == (if old(self)@.contains_key(button) {
                Some(old(self)@[button])
            } else {
                None
            }),
            final(self)@ == old(self)@.remove(button),
    {
        let owner = self.get(button);
        match button {
            MouseButton::Left => {
                self.left = None;
            },
            MouseButton::Right => {
                self.right = None;
            },
            MouseButton::Middle => {
                self.middle = None;
            },
        }
        proof {
            assert(self@ =~= old(self)@.remove(button));
        }
        owner
    }

    /// How many buttons are down.
    pub fn len(&self) -> (n: usize)
        ensures
            n == self@.dom().len(),
            self@.dom().finite(),
    {
        let ghost mut dom = Set::<MouseButton>::empty();
        let mut n: usize = 0;
        if self.left.is_some() {
            n = n + 1;
            proof {
                dom = dom.insert(MouseButton::Left);
            }
        }
        if self.right.is_some() {
            n = n + 1;
            proof {
                dom = dom.insert(MouseButton::Right);
            }
        }
        if self.middle.is_some() {
            n = n + 1;
            proof {
                dom = dom.insert(MouseButton::Middle);
            }
        }
        proof {
            assert(self@.dom() =~= dom);
        }
        n
    }

    /// Whether no button is down.
    pub fn is_empty(&self) -> (empty: bool)
        ensures
            empty == (self@ == Map::<MouseButton, MouseGestureOwner>::empty()),
    {
        let empty = self.left.is_none() && self.right.is_none() && self.middle.is_none();
        proof {
            if empty {
                assert(self@ =~= Map::<MouseButton, MouseGestureOwner>::empty());
            } else {
                assert(self@.contains_key(MouseButton::Left) || self@.contains_key(
                    MouseButton::Right,
                ) || self@.contains_key(MouseButton::Middle));
            }
        }
        empty
    }
}

/// The state of the mouse in one window. A ratio is held by the bits of its
/// single-precision value.
#[derive(Clone, Copy, Debug, PartialEq, Eq)]
pub struct MouseState {
    /// The split whose vertical scrollbar is dragged.
    pub dragging_scrollbar: Option<LeafId>,
    /// The split whose horizontal scrollbar is dragged.
    pub dragging_horizontal_scrollbar: Option<LeafId>,
    pub drag_start_hcol: Option<u16>,
    pub drag_start_left_column: Option<u64>,
    pub last_position: Option<(u16, u16)>,
    pub lsp_hover_state: Option<LspHover>,
    /// Whether the hover request for this position was sent.
    pub lsp_hover_request_sent: bool,
    pub drag_start_row: Option<u16>,
    pub drag_start_top_byte: Option<u64>,
    pub drag_start_view_line_offset: Option<u64>,
    /// The separator that is dragged.
    pub dragging_separator: Option<(SplitId, SplitDirection)>,
    pub drag_start_position: Option<(u16, u16)>,
    pub drag_start_ratio: Option<u32>,
    pub dragging_file_explorer: bool,
    pub drag_start_explorer_width: Option<ExplorerWidth>,
    pub hover_target: Option<HoverTarget>,
    /// Whether text is being selected by a drag.
    pub dragging_text_selection: bool,
    pub drag_selection_split: Option<LeafId>,
    pub drag_selection_anchor: Option<u64>,
    /// The end of the cell where a drag over a terminal grid began.
    pub terminal_drag_anchor_end: Option<u64>,
    /// Whether the selection grows by whole words.
    pub drag_selection_by_words: bool,
    pub drag_selection_word_end: Option<u64>,
    pub dragging_tab: Option<TabDragState>,
    pub dragging_popup_scrollbar: Option<u64>,
    pub drag_start_popup_scroll: Option<u64>,
    pub dragging_prompt_scrollbar: bool,
    pub selecting_in_popup: Option<u64>,
    pub drag_start_composite_scroll_row: Option<u64>,
    /// A left press on a live terminal grid which has not become a drag:
    /// split, buffer, column and row.
    pub terminal_drag_pending: Option<(LeafId, BufferId, u16, u16)>,
    pub gesture_captures: GestureCaptures,
}

impl Default for MouseState {
    fn default() -> (state: MouseState)
        ensures
            state == MouseState::initial(),
    {
        MouseState {
            dragging_scrollbar: None,
            dragging_horizontal_scrollbar: None,
            drag_start_hcol: None,
            drag_start_left_column: None,
            last_position: None,
            lsp_hover_state: None,
            lsp_hover_request_sent: false,
            drag_start_row: None,
            drag_start_top_byte: None,
            drag_start_view_line_offset: None,
            dragging_separator: None,
            drag_start_position: None,
            drag_start_ratio: None,
            dragging_file_explorer: false,
            drag_start_explorer_width: None,
            hover_target: None,
            dragging_text_selection: false,
            drag_selection_split: None,
            drag_selection_anchor: None,
            terminal_drag_anchor_end: None,
            drag_selection_by_words: false,
            drag_selection_word_end: None,
            dragging_tab: None,
            dragging_popup_scrollbar: None,
            drag_start_popup_scroll: None,
            dragging_prompt_scrollbar: false,
            selecting_in_popup: None,
            drag_start_composite_scroll_row: None,
            terminal_drag_pending: None,
            gesture_captures: GestureCaptures::new(),
        }
    }
}

impl MouseState {
    /// A mouse that has done nothing yet.
    pub open spec fn initial() -> MouseState {
        MouseState {
            dragging_scrollbar: None,
            dragging_horizontal_scrollbar: None,
            drag_start_hcol: None,
            drag_start_left_column: None,
            last_position: None,
            lsp_hover_state: None,
            lsp_hover_request_sent: false,
            drag_start_row: None,
            drag_start_top_byte: None,
            drag_start_view_line_offset: None,
            dragging_separator: None,
            drag_start_position: None,
            drag_start_ratio: None,
            dragging_file_explorer: false,
            drag_start_explorer_width: None,
            hover_target: None,
            dragging_text_selection: false,
            drag_selection_split: None,
            drag_selection_anchor: None,
            terminal_drag_anchor_end: None,
            drag_selection_by_words: false,
            drag_selection_word_end: None,
            dragging_tab: None,
            dragging_popup_scrollbar: None,
            drag_start_popup_scroll: None,
            dragging_prompt_scrollbar: false,
            selecting_in_popup: None,
            drag_start_composite_scroll_row: None,
            terminal_drag_pending: None,
            gesture_captures: GestureCaptures::none(),
        }
    }

    /// This state with every gesture and drag given up.
    pub open spec fn cancelled(self) -> MouseState {
        self.with_captures(GestureCaptures::none()).drags_cleared()
    }

    /// This state with other button owners.
    pub open spec fn with_captures(self, captures: GestureCaptures) -> MouseState {
        MouseState { gesture_captures: captures, ..self }
    }

    /// This state with no drag of any kind under way. What is left is the last
    /// position, what the pointer hovers over, and who owns the buttons.
    pub open spec fn drags_cleared(self) -> MouseState {
        MouseState {
            dragging_scrollbar: None,
            dragging_horizontal_scrollbar: None,
            drag_start_hcol: None,
            drag_start_left_column: None,
            last_position: self.last_position,
            lsp_hover_state: self.lsp_hover_state,
            lsp_hover_request_sent: self.lsp_hover_request_sent,
            drag_start_row: None,
            drag_start_top_byte: None,
            drag_start_view_line_offset: None,
            dragging_separator: None,
            drag_start_position: None,
            drag_start_ratio: None,
            dragging_file_explorer: false,
            drag_start_explorer_width: None,
            hover_target: self.hover_target,
            dragging_text_selection: false,
            drag_selection_split: None,
            drag_selection_anchor: None,
            terminal_drag_anchor_end: None,
            drag_selection_by_words: false,
            drag_selection_word_end: None,
            dragging_tab: None,
            dragging_popup_scrollbar: None,
            drag_start_popup_scroll: None,
            dragging_prompt_scrollbar: false,
            selecting_in_popup: None,
            drag_start_composite_scroll_row: None,
            terminal_drag_pending: None,
            gesture_captures: self.gesture_captures,
        }
    }

    /// A press that the editor keeps for itself.
    pub fn start_mouse_gesture(&mut self, button: MouseButton)
        ensures
            final(self).gesture_captures@ == old(self).gesture_captures@.insert(
                button,
                MouseGestureOwner::Fresh,
            ),
            *final(self) == old(self).with_captures(final(self).gesture_captures),
    {
        self.gesture_captures.insert(button, MouseGestureOwner::Fresh);
    }

    /// A press that goes to a terminal.
    pub fn capture_terminal_mouse_gesture(
        &mut self,
        button: MouseButton,
        split_id: LeafId,
        terminal_id: TerminalId,
        content_rect: Rect,
    )
        ensures
            final(self).gesture_captures@ == old(self).gesture_captures@.insert(
                button,
                (MouseGestureOwner::Terminal { split_id, terminal_id, content_rect }),
            ),
            *final(self) == old(self).with_captures(final(self).gesture_captures),
    {
        self.gesture_captures.insert(
            button,
            MouseGestureOwner::Terminal { split_id, terminal_id, content_rect },
        );
    }

    /// The owner of a press that was not released yet.
    pub fn mouse_gesture_owner(&self, button: MouseButton) -> (owner: Option<MouseGestureOwner>)
        ensures
            owner == (if self.gesture_captures@.contains_key(button) {
                Some(self.gesture_captures@[button])
            } else {
                None
            }),
    {
        self.gesture_captures.get(button)
    }

    /// Ends the gesture of `button` and says who owned it.
    pub fn finish_mouse_gesture(&mut self, button: MouseButton) -> (owner: Option<
        MouseGestureOwner,
    >)
        ensures
            owner == (if old(self).gesture_captures@.contains_key(button) {
                Some(old(self).gesture_captures@[button])
            } else {
                None
            }),
            final(self).gesture_captures@ == old(self).gesture_captures@.remove(button),
            *final(self) == old(self).with_captures(final(self).gesture_captures),
    {
        self.gesture_captures.remove(button)
    }

    /// Ends the gestures of all buttons and says who owned each.
    pub fn take_mouse_gestures(&mut self) -> (captures: GestureCaptures)
        ensures
            captures == old(self).gesture_captures,
            final(self).gesture_captures == GestureCaptures::none(),
            final(self).gesture_captures@ == Map::<MouseButton, MouseGestureOwner>::empty(),
            *final(self) == old(self).with_captures(final(self).gesture_captures),
    {
        let captures = self.gesture_captures;
        self.gesture_captures = GestureCaptures::new();
        captures
    }

    /// Abandons every drag. Buttons keep their owners.
    pub fn clear_drag_state(&mut self)
        ensures
            *final(self) == old(self).drags_cleared(),
    {
        self.dragging_scrollbar = None;
        self.drag_start_row = None;
        self.drag_start_top_byte = None;
        self.drag_start_view_line_offset = None;
        self.dragging_horizontal_scrollbar = None;
        self.drag_start_hcol = None;
        self.drag_start_left_column = None;
        self.dragging_separator = None;
        self.drag_start_position = None;
        self.drag_start_ratio = None;
        self.dragging_file_explorer = false;
        self.drag_start_explorer_width = None;
        self.dragging_text_selection = false;
        self.drag_selection_split = None;
        self.drag_selection_anchor = None;
        self.terminal_drag_anchor_end = None;
        self.drag_selection_by_words = false;
        self.drag_selection_word_end = None;
        self.dragging_tab = None;
        self.dragging_popup_scrollbar = None;
        self.drag_start_popup_scroll = None;
        self.dragging_prompt_scrollbar = false;
        self.selecting_in_popup = None;
        self.drag_start_composite_scroll_row = None;
        self.terminal_drag_pending = None;
    }
}

} // verus!
