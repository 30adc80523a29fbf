//! Mouse gestures: who gets a press, and what becomes of it.
use vstd::prelude::*;

use crate::documents::BufferContent;
use crate::editor::EditorModel;
use crate::geometry::Rect;
use crate::ids::WindowId;
use crate::mouse::GestureCaptures;
use crate::mouse::MouseButton;
use crate::mouse::MouseGestureOwner;
use crate::mouse::MouseState;
use crate::terminal_grid::cell_end;
use crate::terminal_grid::drag_selection;
use crate::terminal_grid::line_content_end;
use crate::terminal_grid::next_start;
use crate::terminal_grid::selection_end;
use crate::terminal_grid::selection_start;
use crate::terminal_mouse::captured_route;
use crate::terminal_mouse::continuation_of;
use crate::terminal_mouse::ends_capture;
use crate::terminal_mouse::nearest_cell;
use crate::terminal_mouse::retirement;
use crate::terminal_mouse::retirements;
use crate::terminal_mouse::wire_button;
use crate::terminal_mouse::CapturedMouseRoute;
use crate::terminal_mouse::MouseEvent;
use crate::terminal_mouse::TerminalMouseEventKind;
use crate::terminal_mouse::TerminalMouseReport;
use crate::window::WindowModel;

verus! {

/// The buttons are independent: pressing or releasing one leaves the owners of
/// the others as they are.
pub proof fn buttons_are_independent(
    captures: GestureCaptures,
    button: MouseButton,
    owner: MouseGestureOwner,
    other: MouseButton,
)
    requires
        button != other,
    ensures
        captures@.insert(button, owner).contains_key(other) == captures@.contains_key(other),
        captures@.insert(button, owner)[other] == captures@[other],
        captures@.remove(button).contains_key(other) == captures@.contains_key(other),
        captures@.contains_key(other) ==> captures@.remove(button)[other] == captures@[other],
{
}

/// Abandoning a drag takes no button from its owner, and does nothing where no
/// drag is under way.
pub proof fn clearing_drags_keeps_the_owners(state: MouseState)
    ensures
        state.drags_cleared().gesture_captures == state.gesture_captures,
        state.drags_cleared().drags_cleared() == state.drags_cleared(),
        state.drags_cleared().last_position == state.last_position,
        state.drags_cleared().hover_target == state.hover_target,
{
}

/// Once drags are abandoned none is under way: no scrollbar, separator, tab, selection,
/// popup or file explorer is dragged, and no press waits to become a drag.
pub proof fn clearing_drags_ends_every_drag(state: MouseState)
    ensures
        ({
            let after = state.drags_cleared();
            &&& after.dragging_scrollbar is None
            &&& after.dragging_horizontal_scrollbar is None
            &&& after.dragging_separator is None
            &&& after.dragging_tab is None
            &&& after.dragging_popup_scrollbar is None
            &&& after.selecting_in_popup is None
            &&& !after.dragging_file_explorer
            &&& !after.dragging_text_selection
            &&& !after.dragging_prompt_scrollbar
            &&& !after.drag_selection_by_words
            &&& after.drag_selection_split is None
            &&& after.drag_selection_anchor is None
            &&& after.drag_selection_word_end is None
            &&& after.terminal_drag_anchor_end is None
            &&& after.terminal_drag_pending is None
            &&& after.drag_start_position is None
            &&& after.drag_start_row is None
            &&& after.drag_start_hcol is None
            &&& after.drag_start_ratio is None
            &&& after.drag_start_top_byte is None
            &&& after.drag_start_view_line_offset is None
            &&& after.drag_start_left_column is None
            &&& after.drag_start_explorer_width is None
            &&& after.drag_start_popup_scroll is None
            &&& after.drag_start_composite_scroll_row is None
            &&& after.lsp_hover_state == state.lsp_hover_state
        }),
{
}

/// A cell that a captured event is clamped to lies within the terminal, and an
/// event within the terminal stays where it is.
pub proof fn captured_cells_lie_within_the_terminal(rect: Rect, col: u16, row: u16)
    ensures
        nearest_cell(rect, col, row) is None <==> rect.width == 0 || rect.height == 0,
        nearest_cell(rect, col, row) matches Some(cell) ==> cell.0 < rect.width && cell.1
            < rect.height,
        rect.covers(col, row) ==> nearest_cell(rect, col, row) == Some(
            ((col - rect.x) as u16, (row - rect.y) as u16),
        ),
{
}

/// What follows a press that a terminal has seen stays with that terminal,
/// wherever the pointer goes, and lies within the terminal.
pub proof fn a_gesture_stays_with_its_terminal(
    window: WindowModel,
    button: MouseButton,
    event: MouseEvent,
)
    requires
        window.mouse_state.gesture_captures@.contains_key(button),
        window.mouse_state.gesture_captures@[button] is Terminal,
        continuation_of(event.kind) is Some,
        (continuation_of(event.kind)->0).0 == button,
    ensures
        ({
            let owner = window.mouse_state.gesture_captures@[button];
            let rect = painted_area(window, owner);
            match captured_route(window, button, event) {
                CapturedMouseRoute::Fresh => false,
                CapturedMouseRoute::Terminal(Some(report)) => {
                    &&& report.terminal_id == owner->terminal_id
                    &&& report.col < rect.width
                    &&& report.row < rect.height
                },
                CapturedMouseRoute::Terminal(None) => rect.width == 0 || rect.height == 0,
            }
        }),
{
}

/// Where the terminal of a gesture is painted, or was when it saw the press.
pub open spec fn painted_area(window: WindowModel, owner: MouseGestureOwner) -> Rect {
    match owner {
        MouseGestureOwner::Terminal { split_id, terminal_id, content_rect } =>
            match window.capture_area(split_id, terminal_id) {
                Some(rect) => rect,
                None => content_rect,
            },
        MouseGestureOwner::Fresh => Rect { x: 0, y: 0, width: 0, height: 0 },
    }
}

/// Whether an event tells the owner of a gesture that the button is up.
pub open spec fn is_release(
    route: CapturedMouseRoute,
    owner: MouseGestureOwner,
    button: MouseButton,
) -> bool {
    match route {
        CapturedMouseRoute::Terminal(Some(report)) => {
            &&& report.kind == TerminalMouseEventKind::Up(wire_button(button))
            &&& report.terminal_id == owner->terminal_id
        },
        _ => false,
    }
}

/// A terminal that has seen a press sees its release: whatever ends the gesture,
/// the release itself, a terminal that is no longer painted or a gesture that is
/// given up, the terminal is told that the button is up.
pub proof fn a_press_is_followed_by_its_release(
    window: WindowModel,
    button: MouseButton,
    event: MouseEvent,
    col: u16,
    row: u16,
)
    requires
        window.mouse_state.gesture_captures@.contains_key(button),
        window.mouse_state.gesture_captures@[button] is Terminal,
        ({
            let rect = painted_area(window, window.mouse_state.gesture_captures@[button]);
            rect.width > 0 && rect.height > 0
        }),
    ensures
        ({
            let owner = window.mouse_state.gesture_captures@[button];
            &&& continuation_of(event.kind) is Some && (continuation_of(event.kind)->0).0 == button
                && ends_capture(window, button, (continuation_of(event.kind)->0).1)
                ==> is_release(captured_route(window, button, event), owner, button)
            &&& retirement(window, button, owner, col, row) is Some
            &&& (retirement(window, button, owner, col, row)->0).kind
                == TerminalMouseEventKind::Up(wire_button(button))
            &&& (retirement(window, button, owner, col, row)->0).terminal_id == owner->terminal_id
        }),
{
}

/// Once its gestures are given up a window owes the terminals nothing more.
pub proof fn giving_gestures_up_twice_is_giving_them_up_once(window: WindowModel)
    ensures
        retirements(window.gestures_cancelled()) == Seq::<TerminalMouseReport>::empty(),
        window.gestures_cancelled().gestures_cancelled() == window.gestures_cancelled(),
{
    GestureCaptures::lemma_none_is_empty();
    assert(retirements(window.gestures_cancelled()) =~= Seq::<TerminalMouseReport>::empty());
}

/// A gesture does not survive the change of the window in the foreground, and
/// the window that comes there is left as it is.
pub proof fn a_change_of_windows_ends_the_gestures(editor: EditorModel, id: WindowId)
    requires
        editor.active_window != id,
        editor.has_active(),
    ensures
        ({
            let after = editor.pointing_at(id);
            &&& after.active_window == id
            &&& after.window(editor.active_window).mouse_state.gesture_captures
                == GestureCaptures::none()
            &&& after.window(editor.active_window).mouse_state.dragging_tab is None
            &&& editor.has(id) ==> after.window(id) == editor.window(id)
            &&& after.windows.dom() == editor.windows.dom()
        }),
{
    assert(editor.pointing_at(id).windows.dom() =~= editor.windows.dom());
}

/// A glance at another window brings back the one that was in the foreground,
/// and touches nothing but the gestures of the two.
pub proof fn a_glance_at_a_window_changes_only_gestures(editor: EditorModel, id: WindowId, k: u64)
    requires
        editor.has_active(),
        editor.has(id),
    ensures
        ({
            let after = editor.visiting(id);
            &&& after.active_window == editor.active_window
            &&& after.windows.dom() == editor.windows.dom()
            &&& editor.windows.contains_key(k) ==> after.windows[k] == editor.windows[k]
                || after.windows[k] == editor.windows[k].gestures_cancelled()
            &&& k != editor.active_window.0 && k != id.0 ==> after.windows[k]
                == editor.windows[k]
        }),
{
    assert(editor.visiting(id).windows.dom() =~= editor.windows.dom());
}

/// A drag over a grid selects the cell where it began and the cell where it is,
/// in either direction.
pub proof fn a_drag_selects_both_of_its_cells(
    anchor_start: u64,
    anchor_end: u64,
    head_start: u64,
    head_end: u64,
)
    requires
        anchor_start <= anchor_end,
        head_start <= head_end,
        head_start >= anchor_start ==> head_end >= anchor_end,
        head_start < anchor_start ==> head_end <= anchor_end,
    ensures
        ({
            let cursor = drag_selection(anchor_start, anchor_end, head_start, head_end);
            &&& cursor.anchor is Some
            &&& selection_start(cursor) <= anchor_start
            &&& selection_start(cursor) <= head_start
            &&& selection_end(cursor) >= anchor_end
            &&& selection_end(cursor) >= head_end
        }),
{
}

/// A cell of a terminal never reaches past the text of its line, so that no
/// newline is selected with it.
pub proof fn a_cell_ends_on_its_line(content: BufferContent, pos: int)
    requires
        0 <= pos <= content.bytes@.len(),
    ensures
        pos <= cell_end(content, pos) <= line_content_end(content.bytes@, pos),
        line_content_end(content.bytes@, pos) <= content.bytes@.len(),
{
    lemma_line_content_end(content.bytes@, pos);
    lemma_next_start_is_after(content.grapheme_starts@, pos, content.bytes@.len() as int);
}

proof fn lemma_line_content_end(bytes: Seq<u8>, pos: int)
    requires
        0 <= pos <= bytes.len(),
    ensures
        pos <= line_content_end(bytes, pos) <= bytes.len(),
    decreases bytes.len() - pos,
{
    if pos < bytes.len() && bytes[pos] != crate::buffer_text::NEWLINE {
        lemma_line_content_end(bytes, pos + 1);
    }
}

proof fn lemma_next_start_is_after(starts: Seq<u64>, pos: int, len: int)
    requires
        pos <= len,
    ensures
        pos <= next_start(starts, pos, len),
    decreases starts.len(),
{
    if starts.len() > 0 {
        lemma_next_start_is_after(starts.drop_first(), pos, len);
    }
}

} // verus!
