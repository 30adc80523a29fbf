//! Grids of terminals and buffers of plugins: which cell is which text, and where a
//! buffer is shown.
use vstd::prelude::*;

use crate::command::VirtualBufferDisplay;
use crate::documents::DisplayFlags;
use crate::documents::LayoutModel;
use crate::documents::TabTarget;
use crate::documents::ViewStateModel;
use crate::documents::Viewport;
use crate::effects::FreshSplit;
use crate::geometry::Rect;
use crate::ids::BufferId;
use crate::ids::LeafId;
use crate::mouse::SplitDirection;
use crate::notice::Notice;
use crate::terminal_grid::characters_before;
use crate::terminal_grid::drag_selection;
use crate::terminal_grid::grid_target;
use crate::terminal_grid::line_content_end;
use crate::terminal_grid::text_width;
use crate::terminal_grid::utf8_width;
use crate::terminal_grid::GridLine;
use crate::terminal_grid::GridTarget;
use crate::virtual_buffer::displayed;
use crate::virtual_buffer::is_dock_role;
use crate::virtual_buffer::split_direction;
use crate::window::WindowModel;

verus! {

/// The text of a line ends at the first newline, or at the end of the buffer.
pub proof fn a_line_of_text_ends_at_the_first_newline(bytes: Seq<u8>, pos: int)
    requires
        0 <= pos <= bytes.len(),
    ensures
        pos <= line_content_end(bytes, pos) <= bytes.len(),
        line_content_end(bytes, pos) < bytes.len() ==> bytes[line_content_end(bytes, pos)] == 10u8,
        forall|i: int| pos <= i < line_content_end(bytes, pos) ==> #[trigger] bytes[i] != 10u8,
    decreases bytes.len() - pos,
{
    if pos < bytes.len() && bytes[pos] != 10u8 {
        a_line_of_text_ends_at_the_first_newline(bytes, pos + 1);
    }
}

/// A cell of a grid that does not wrap stands for the line as far below the top as the
/// cell is below the corner, and for the column as far to the right.
pub proof fn a_cell_stands_for_its_line_and_column(
    viewport: Viewport,
    top_line: u64,
    lines: Seq<GridLine>,
    buffer_len: u64,
    rect: Rect,
    col: u16,
    row: u16,
)
    requires
        !(viewport.grid_wrap && viewport.line_wrap_enabled),
        rect.x <= col < rect.x + rect.width,
        rect.y <= row < rect.y + rect.height,
        top_line + u16::MAX <= u64::MAX,
    ensures
        grid_target(viewport, top_line, lines, buffer_len, rect, col, row) == Some(
            GridTarget::LineColumn {
                line: (top_line + (row - rect.y)) as u64,
                column: (col - rect.x + viewport.left_column) as u64,
            },
        ),
{
}

/// A drag to the right selects from the start of its first cell to the end of its last,
/// with the cursor at the end; a drag to the left from the end of its first cell to the
/// start of its last, with the cursor there.
pub proof fn a_drag_selects_towards_the_pointer(
    anchor_start: u64,
    anchor_end: u64,
    head_start: u64,
    head_end: u64,
)
    ensures
        ({
            let cursor = drag_selection(anchor_start, anchor_end, head_start, head_end);
            &&& anchor_start <= head_start ==> cursor.position == head_end && cursor.anchor == Some(
                anchor_start,
            )
            &&& head_start < anchor_start ==> cursor.position == head_start && cursor.anchor
                == Some(anchor_end)
        }),
{
}

/// A live grid can be selected in where it is painted and not in scrollback already; once
/// it was dropped into scrollback it cannot any more, and the user is told that the
/// terminal has no keys now.
pub proof fn a_grid_is_dropped_into_scrollback_once(
    window: WindowModel,
    split: LeafId,
    buffer: BufferId,
)
    ensures
        ({
            let after = window.dropped_into_scrollback(split, buffer);
            &&& after.in_scrollback(split, buffer)
            &&& after.selectable_grid(split, buffer) is None
            &&& after.terminals.scrollback_views.last().by_drag
            &&& after.ui.status_message == Some(Notice::TerminalModeDisabled)
            &&& after.documents == window.documents
            &&& !window.terminals.bindings.contains_key(buffer.0) ==> window.selectable_grid(
                split,
                buffer,
            ) is None
        }),
{
    let after = window.dropped_into_scrollback(split, buffer);
    let views = after.terminals.scrollback_views;
    let last = views[views.len() - 1];
    assert(last.split == split && last.buffer == buffer);
}

/// The column in bytes at which a character starts stands for the number of characters
/// before it.
pub proof fn a_column_counts_the_characters_before_it(text: Seq<char>, k: int)
    requires
        0 <= k <= text.len(),
    ensures
        characters_before(text, text_width(text.take(k))) == k,
    decreases text.len(),
{
    if text.len() == 0 {
        assert(k == 0);
    } else if k == text.len() {
        assert(text.take(k) =~= text);
        lemma_all_before(text.drop_last(), text_width(text));
    } else {
        let rest = text.drop_last();
        a_column_counts_the_characters_before_it(rest, k);
        assert(rest.take(k) =~= text.take(k));
        lemma_width_grows(rest, k);
    }
}

proof fn lemma_width_grows(text: Seq<char>, k: int)
    requires
        0 <= k <= text.len(),
    ensures
        text_width(text.take(k)) <= text_width(text),
    decreases text.len(),
{
    if k == text.len() {
        assert(text.take(k) =~= text);
    } else {
        lemma_width_grows(text.drop_last(), k);
        assert(text.drop_last().take(k) =~= text.take(k));
    }
}

proof fn lemma_all_before(text: Seq<char>, column: int)
    requires
        text_width(text) < column,
    ensures
        characters_before(text, column) == text.len(),
    decreases text.len(),
{
    if text.len() > 0 {
        lemma_all_before(text.drop_last(), column);
    }
}

/// Characters take one to four bytes, the more the higher their code.
pub proof fn characters_take_up_to_four_bytes(c: char)
    ensures
        (c as u32) < 128 ==> utf8_width(c) == 1,
        128 <= (c as u32) < 2048 ==> utf8_width(c) == 2,
        2048 <= (c as u32) < 65536 ==> utf8_width(c) == 3,
        65536 <= (c as u32) ==> utf8_width(c) == 4,
{
}

/// A buffer of a plugin is displayed as it was asked for, and otherwise as it was.
pub proof fn a_virtual_buffer_is_displayed_as_asked(
    flags: DisplayFlags,
    display: VirtualBufferDisplay,
    indentation_guide: Option<bool>,
    scrollable: bool,
)
    ensures
        ({
            let after = displayed(flags, display, indentation_guide, scrollable);
            &&& after.line_numbers == display.show_line_numbers
            &&& after.show_cursors == display.show_cursors
            &&& after.editing_disabled == display.editing_disabled
            &&& after.scrollable == scrollable
            &&& indentation_guide is Some ==> after.indentation_guide_override
                == indentation_guide
            &&& indentation_guide is None ==> after.indentation_guide_override
                == flags.indentation_guide_override
            &&& after.cursor_visibility_locked == flags.cursor_visibility_locked
        }),
{
}

/// A buffer that comes to the front of a split has a tab there, and its cursor and view
/// are where the split remembers them; what was in front is remembered as it was.
pub proof fn a_buffer_comes_to_the_front(state: ViewStateModel, buffer: BufferId)
    requires
        buffer != state.active_buffer,
    ensures
        ({
            let after = state.fronting(buffer);
            &&& after.active_buffer == buffer
            &&& after.open_buffers.contains(TabTarget::Buffer(buffer))
            &&& state.keyed_states.contains_key(buffer.0) ==> {
                &&& after.cursor == state.keyed_states[buffer.0].cursor
                &&& after.viewport == state.keyed_states[buffer.0].viewport
            }
            &&& after.keyed_states.contains_key(state.active_buffer.0)
            &&& after.keyed_states[state.active_buffer.0].cursor == state.cursor
            &&& after.keyed_states[state.active_buffer.0].viewport == state.viewport
            &&& after.focus_history == state.focus_history
        }),
{
    let after = state.fronting(buffer);
    if !state.open_buffers.contains(TabTarget::Buffer(buffer)) {
        let tabs = after.open_buffers;
        assert(tabs[tabs.len() - 1] == TabTarget::Buffer(buffer));
    }
}

/// A buffer that is placed in a split is in front there, and the split has the focus.
pub proof fn a_placed_buffer_is_in_front(
    layout: LayoutModel,
    buffer: BufferId,
    leaf: LeafId,
    numbers: bool,
    wrap: Option<bool>,
    i: int,
)
    requires
        0 <= i < layout.panes.len(),
        layout.view_states.contains_key(leaf.0.0),
    ensures
        ({
            let after = layout.placed_in(buffer, leaf, numbers, wrap);
            let state = after.view_states[leaf.0.0];
            &&& after.active_split == leaf
            &&& state.active_buffer == buffer
            &&& state.keyed_states.contains_key(buffer.0)
            &&& state.keyed_states[buffer.0].show_line_numbers == numbers
            &&& wrap is Some ==> state.viewport.line_wrap_enabled == wrap->0
            &&& layout.panes[i].leaf == leaf ==> after.panes[i].buffer == buffer
            &&& layout.panes[i].leaf != leaf ==> after.panes[i] == layout.panes[i]
        }),
{
}

/// A split that a buffer gets for itself shows it alone, has the focus, and is the dock
/// where it was to be; lines wrap as asked for, or as they do by default.
pub proof fn a_fresh_split_shows_its_buffer(
    layout: LayoutModel,
    buffer: BufferId,
    leaf: LeafId,
    plan: FreshSplit,
    width: u16,
    height: u16,
    default_wrap: bool,
)
    ensures
        ({
            let after = layout.split_off(buffer, leaf, plan, width, height, default_wrap);
            let state = after.view_states[leaf.0.0];
            &&& after.active_split == leaf
            &&& state.active_buffer == buffer
            &&& state.viewport.line_wrap_enabled == if plan.line_wrap is Some {
                plan.line_wrap->0
            } else {
                default_wrap
            }
            &&& state.keyed_states[buffer.0].show_line_numbers == plan.show_line_numbers
            &&& plan.dock ==> after.utility_dock == Some(leaf)
            &&& !plan.dock ==> after.utility_dock == layout.utility_dock
        }),
{
}

/// The directions and the role of a split go by their names.
pub proof fn splits_go_by_their_names(name: String)
    ensures
        name@ == "vertical"@ ==> split_direction(Some(name)) == SplitDirection::Vertical,
        name@ != "vertical"@ ==> split_direction(Some(name)) == SplitDirection::Horizontal,
        split_direction(None) == SplitDirection::Horizontal,
        is_dock_role(Some(name)) <==> name@ == "utility_dock"@,
        !is_dock_role(None),
{
}

} // verus!
