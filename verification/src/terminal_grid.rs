//! Selections and links over a terminal: from screen cells to bytes of text.
use vstd::prelude::*;
use vstd::utf8::decode_utf8;
use vstd::utf8::valid_utf8;

use crate::buffer_text::NEWLINE;
use crate::documents::BufferContent;
use crate::documents::Cursor;
use crate::documents::LayoutModel;
use crate::documents::ViewStateModel;
use crate::documents::Viewport;
use crate::geometry::Rect;
use crate::ids::BufferId;
use crate::ids::LeafId;
use crate::ids::TerminalId;
use crate::lists::first_match;
use crate::lists::lemma_first_match_found;
use crate::lists::lemma_first_match_none;
use crate::mouse::MouseState;
use crate::notice::Notice;
use crate::terminal_mouse::clamped_rect_offset;
use crate::terminal_mouse::nearest_cell;
use crate::terminals::ScrollbackView;
use crate::terminals::TerminalsModel;
use crate::window::DocumentsModel;
use crate::window::SplitArea;
use crate::window::Window;
use crate::window::WindowModel;

verus! {

/// The end of the line that `pos` is on: its newline, or the end of the text.
pub open spec fn line_content_end(bytes: Seq<u8>, pos: int) -> int
    decreases bytes.len() - pos,
{
    if pos < 0 || pos >= bytes.len() {
        bytes.len() as int
    } else if bytes[pos] == NEWLINE {
        pos
    } else {
        line_content_end(bytes, pos + 1)
    }
}

/// The first of `starts` after `pos`, or the end of the text.
pub open spec fn next_start(starts: Seq<u64>, pos: int, len: int) -> int
    decreases starts.len(),
{
    if starts.len() == 0 {
        len
    } else if starts[0] > pos {
        starts[0] as int
    } else {
        next_start(starts.drop_first(), pos, len)
    }
}

/// The end of the terminal cell that starts at `pos`: the next character, but
/// never past the end of the line. Blank cells after the text collapse there.
pub open spec fn cell_end(content: BufferContent, pos: int) -> int {
    let end = line_content_end(content.bytes@, pos);
    if pos >= end {
        end
    } else {
        let next = next_start(content.grapheme_starts@, pos, content.bytes@.len() as int);
        if next < end {
            next
        } else {
            end
        }
    }
}

/// The end of the terminal cell that starts at `pos`.
pub fn terminal_grid_cell_end_in_buffer(content: &BufferContent, pos: u64) -> (end: u64)
    ensures
        end == cell_end(*content, pos as int),
{
    let len: usize = content.bytes.len();
    let mut end: usize = if pos < len as u64 {
        pos as usize
    } else {
        len
    };
    while end < len && content.bytes[end] != NEWLINE
        invariant
            len == content.bytes@.len(),
            end <= len,
            line_content_end(content.bytes@, pos as int) == line_content_end(
                content.bytes@,
                end as int,
            ),
        decreases len - end,
    {
        end = end + 1;
    }
    if pos >= end as u64 {
        return end as u64;
    }
    let mut at: usize = 0;
    proof {
        assert(content.grapheme_starts@.skip(0) =~= content.grapheme_starts@);
    }
    while at < content.grapheme_starts.len() && content.grapheme_starts[at] <= pos
        invariant
            len == content.bytes@.len(),
            at <= content.grapheme_starts.len(),
            next_start(content.grapheme_starts@, pos as int, len as int) == next_start(
                content.grapheme_starts@.skip(at as int),
                pos as int,
                len as int,
            ),
        decreases content.grapheme_starts.len() - at,
    {
        proof {
            assert(content.grapheme_starts@.skip(at as int).drop_first()
                =~= content.grapheme_starts@.skip(at + 1));
        }
        at = at + 1;
    }
    let next: u64 = if at < content.grapheme_starts.len() {
        content.grapheme_starts[at]
    } else {
        len as u64
    };
    if next < end as u64 {
        next
    } else {
        end as u64
    }
}

/// One visual row of a line that wraps at the columns of a grid.
#[derive(Debug)]
pub struct GridRow {
    pub visual_width: u64,
    /// The byte of the line at which the row starts.
    pub start_byte: Option<u64>,
    /// The byte of the line at each column.
    pub column_bytes: Vec<Option<u64>>,
}

/// A line of text as a grid shows it.
#[derive(Debug)]
pub struct GridLine {
    pub start: u64,
    /// The length without the line ending.
    pub trimmed_len: u64,
    /// How many visual rows the line takes.
    pub row_count: u64,
    pub rows: Vec<GridRow>,
}

/// A place in a buffer: an exact byte, or a column of a line, which the buffer
/// resolves.
#[derive(Clone, Copy, Debug, PartialEq, Eq, Structural)]
pub enum GridTarget {
    Byte(u64),
    LineColumn { line: u64, column: u64 },
}

/// The byte of `line` at column `col` of its visual row `row`. A column past
/// the text of the row stands for the end of the row.
pub open spec fn byte_in_line(line: GridLine, row: int, col: int) -> int {
    let rows = line.rows@;
    if row < rows.len() && col < rows[row].visual_width {
        if col < rows[row].column_bytes@.len() && rows[row].column_bytes@[col] is Some {
            rows[row].column_bytes@[col]->0 as int
        } else {
            line.trimmed_len as int
        }
    } else if row + 1 < rows.len() && rows[row + 1].start_byte is Some {
        rows[row + 1].start_byte->0 as int
    } else {
        line.trimmed_len as int
    }
}

/// The byte at column `col` of the visual row `row`, counted from the first of
/// `lines`; the end of the buffer where there are not so many rows.
pub open spec fn wrapped_position(lines: Seq<GridLine>, row: int, col: int, buffer_len: int) -> int
    decreases lines.len(),
{
    if lines.len() == 0 {
        buffer_len
    } else if row < lines[0].row_count {
        let byte = byte_in_line(lines[0], row, col);
        lines[0].start + if byte < lines[0].trimmed_len {
            byte
        } else {
            lines[0].trimmed_len as int
        }
    } else {
        wrapped_position(lines.drop_first(), row - lines[0].row_count, col, buffer_len)
    }
}

/// The byte at a column of a visual row: walks the wrapped rows of `lines`.
pub fn find_wrapped_position(lines: &[GridLine], row: u64, col: u64, buffer_len: u64) -> (byte: u64)
    requires
        forall|i: int|
            0 <= i < lines@.len() ==> (#[trigger] lines@[i]).start + lines@[i].trimmed_len
                <= u64::MAX,
    ensures
        byte == wrapped_position(lines@, row as int, col as int, buffer_len as int),
{
    let mut remaining: u64 = row;
    let mut at: usize = 0;
    proof {
        assert(lines@.skip(0) =~= lines@);
    }
    while at < lines.len()
        invariant
            at <= lines.len(),
            forall|i: int|
                0 <= i < lines@.len() ==> (#[trigger] lines@[i]).start + lines@[i].trimmed_len
                    <= u64::MAX,
            wrapped_position(lines@, row as int, col as int, buffer_len as int)
                == wrapped_position(
                lines@.skip(at as int),
                remaining as int,
                col as int,
                buffer_len as int,
            ),
        decreases lines.len() - at,
    {
        let line = &lines[at];
        proof {
            assert(lines@.skip(at as int)[0] == *line);
            assert(lines@.skip(at as int).drop_first() =~= lines@.skip(at + 1));
        }
        if remaining < line.row_count {
            let mut byte: u64 = line.trimmed_len;
            let rows: u64 = line.rows.len() as u64;
            if remaining < rows && col < line.rows[remaining as usize].visual_width {
                let columns = &line.rows[remaining as usize].column_bytes;
                if col < columns.len() as u64 {
                    if let Some(found) = columns[col as usize] {
                        byte = found;
                    }
                }
            } else if rows > 0 && remaining < rows - 1 {
                if let Some(found) = line.rows[remaining as usize + 1].start_byte {
                    byte = found;
                }
            }
            proof {
                assert(byte == byte_in_line(*line, remaining as int, col as int));
            }
            return line.start + if byte < line.trimmed_len {
                byte
            } else {
                line.trimmed_len
            };
        }
        remaining = remaining - line.row_count;
        at = at + 1;
    }
    buffer_len
}

/// The place in the scrollback that a screen cell over `rect` stands for.
/// `top_line` is the line at the top of the viewport and `lines` are the lines
/// from there on, as the grid wraps them.
pub open spec fn grid_target(
    viewport: Viewport,
    top_line: u64,
    lines: Seq<GridLine>,
    buffer_len: u64,
    rect: Rect,
    col: u16,
    row: u16,
) -> Option<GridTarget> {
    match nearest_cell(rect, col, row) {
        None => None,
        Some((grid_col, grid_row)) => {
            let column = grid_col + viewport.left_column;
            if viewport.grid_wrap && viewport.line_wrap_enabled {
                Some(
                    GridTarget::Byte(
                        wrapped_position(
                            lines,
                            viewport.top_view_line_offset + grid_row,
                            column,
                            buffer_len as int,
                        ) as u64,
                    ),
                )
            } else {
                Some(
                    GridTarget::LineColumn {
                        line: (top_line + grid_row) as u64,
                        column: column as u64,
                    },
                )
            }
        },
    }
}

/// The place in the scrollback that a screen cell over `rect` stands for.
pub fn terminal_grid_byte_at(
    viewport: &Viewport,
    top_line: u64,
    lines: &[GridLine],
    buffer_len: u64,
    rect: Rect,
    col: u16,
    row: u16,
) -> (target: Option<GridTarget>)
    requires
        viewport.top_view_line_offset + u16::MAX <= u64::MAX,
        top_line + u16::MAX <= u64::MAX,
        forall|i: int|
            0 <= i < lines@.len() ==> (#[trigger] lines@[i]).start + lines@[i].trimmed_len
                <= u64::MAX,
    ensures
        target == grid_target(*viewport, top_line, lines@, buffer_len, rect, col, row),
{
    match clamped_rect_offset(rect, col, row) {
        None => None,
        Some((grid_col, grid_row)) => {
            let column: u64 = grid_col as u64 + viewport.left_column as u64;
            if viewport.grid_wrap && viewport.line_wrap_enabled {
                let byte = find_wrapped_position(
                    lines,
                    viewport.top_view_line_offset + grid_row as u64,
                    column,
                    buffer_len,
                );
                Some(GridTarget::Byte(byte))
            } else {
                Some(GridTarget::LineColumn { line: top_line + grid_row as u64, column })
            }
        },
    }
}

/// A cell of the live grid.
#[derive(Debug)]
pub struct GridCell {
    /// The second half of a wide character, which has no text of its own.
    pub wide_spacer: bool,
    /// How many zero-width characters are stacked on the cell.
    pub zero_width: u16,
    /// The text of the cell.
    pub text: String,
}

/// How many characters the first `n` cells hold.
pub open spec fn text_column(cells: Seq<GridCell>, n: int) -> int
    decreases n,
{
    if n <= 0 {
        0
    } else {
        let before = text_column(cells, n - 1);
        if n <= cells.len() && !cells[n - 1].wide_spacer {
            before + 1 + cells[n - 1].zero_width
        } else {
            before
        }
    }
}

/// The text of the cells.
pub open spec fn row_text(cells: Seq<GridCell>) -> Seq<char>
    decreases cells.len(),
{
    if cells.len() == 0 {
        Seq::empty()
    } else {
        row_text(cells.drop_last()) + cells.last().text@
    }
}

/// Columns from the end of the row on add no text.
proof fn lemma_text_column_beyond(cells: Seq<GridCell>, n: int)
    requires
        cells.len() <= n,
    ensures
        text_column(cells, n) == text_column(cells, cells.len() as int),
    decreases n - cells.len(),
{
    if n > cells.len() {
        lemma_text_column_beyond(cells, n - 1);
    }
}

/// The text of a grid row, and the character of it at the column `grid_col`.
pub fn row_text_at(cells: &[GridCell], grid_col: u16) -> (text: (String, u64))
    ensures
        text.0@ == row_text(cells@),
        text.1 == text_column(cells@, grid_col as int),
{
    let mut line = String::new();
    let mut column: u64 = 0;
    let mut at: usize = 0;
    while at < cells.len()
        invariant
            at <= cells.len(),
            line@ == row_text(cells@.take(at as int)),
            column == text_column(
                cells@,
                if at < grid_col {
                    at as int
                } else {
                    grid_col as int
                },
            ),
            column <= 0x1_0000 * (if at < grid_col {
                at as int
            } else {
                grid_col as int
            }),
        decreases cells.len() - at,
    {
        let cell = &cells[at];
        if at < grid_col as usize && !cell.wide_spacer {
            column = column + 1 + cell.zero_width as u64;
        }
        line.append(cell.text.as_str());
        proof {
            let next = cells@.take(at + 1);
            assert(next.drop_last() =~= cells@.take(at as int));
            assert(next.last() == cells@[at as int]);
        }
        at = at + 1;
    }
    proof {
        assert(cells@.take(cells@.len() as int) =~= cells@);
        if cells@.len() < grid_col {
            lemma_text_column_beyond(cells@, grid_col as int);
        }
    }
    (line, column)
}

/// The text of bytes, as `String::from_utf8_lossy` reads them: what is not valid
/// UTF-8 is replaced.
pub uninterp spec fn lossy_text(bytes: Seq<u8>) -> Seq<char>;

/// `String::from_utf8_lossy`: the text of bytes, which is their exact text where
/// they are valid UTF-8. It depends on the bytes alone. What stands for bytes that
/// are not valid is left unsaid.
#[verifier::external_body]
fn decode_lossy(bytes: &[u8]) -> (text: String)
    ensures
        text@ == lossy_text(bytes@),
        valid_utf8(bytes@) ==> text@ == decode_utf8(bytes@),
{
    String::from_utf8_lossy(bytes).into_owned()
}

/// How many bytes a character takes in UTF-8.
pub open spec fn utf8_width(c: char) -> int {
    if (c as u32) < 0x80 {
        1
    } else if (c as u32) < 0x800 {
        2
    } else if (c as u32) < 0x1_0000 {
        3
    } else {
        4
    }
}

/// How many bytes a text takes in UTF-8.
pub open spec fn text_width(text: Seq<char>) -> int
    decreases text.len(),
{
    if text.len() == 0 {
        0
    } else {
        text_width(text.drop_last()) + utf8_width(text.last())
    }
}

/// How many characters of a text start before the byte `column`.
pub open spec fn characters_before(text: Seq<char>, column: int) -> int
    decreases text.len(),
{
    if text.len() == 0 {
        0
    } else {
        characters_before(text.drop_last(), column) + if text_width(text.drop_last()) < column {
            1int
        } else {
            0int
        }
    }
}

/// A line without its newline.
pub open spec fn without_newline(line: Seq<char>) -> Seq<char> {
    if line.len() > 0 && line.last() == '\n' {
        line.drop_last()
    } else {
        line
    }
}

/// A line without its newline, and the column in characters that the column
/// `byte_column` in bytes stands for: how many characters start before it.
pub fn character_column(line: &str, byte_column: usize) -> (text: (String, usize))
    ensures
        text.0@ == without_newline(line@),
        text.1 == characters_before(without_newline(line@), byte_column as int),
{
    let all: usize = line.unicode_len();
    let len: usize = if all > 0 && line.get_char(all - 1) == '\n' {
        all - 1
    } else {
        all
    };
    let ghost shown = without_newline(line@);
    let mut column: usize = 0;
    let mut width: u128 = 0;
    let mut at: usize = 0;
    proof {
        assert(line@.subrange(0, len as int) =~= shown);
        assert(shown.take(0) =~= Seq::<char>::empty());
    }
    while at < len
        invariant
            at <= len <= line@.len(),
            len == shown.len(),
            line@.subrange(0, len as int) == shown,
            column <= at,
            column == characters_before(shown.take(at as int), byte_column as int),
            width == text_width(shown.take(at as int)),
            width <= 4 * at,
        decreases len - at,
    {
        let c = line.get_char(at);
        proof {
            assert(line@[at as int] == line@.subrange(0, len as int)[at as int]);
            let next = shown.take(at + 1);
            assert(next.drop_last() =~= shown.take(at as int));
            assert(next.last() == c);
        }
        if width < byte_column as u128 {
            column = column + 1;
        }
        let code = c as u32;
        let step: u128 = if code < 0x80 {
            1
        } else if code < 0x800 {
            2
        } else if code < 0x1_0000 {
            3
        } else {
            4
        };
        width = width + step;
        at = at + 1;
    }
    proof {
        assert(shown.take(shown.len() as int) =~= shown);
    }
    (line.substring_char(0, len).to_string(), column)
}

/// A line of a buffer as its text without the newline, and the column in
/// characters that the column `byte_column` stands for. What is not valid UTF-8 is
/// replaced first.
pub fn scrollback_line_at(line: &[u8], byte_column: usize) -> (text: (String, usize))
    ensures
        text.0@ == without_newline(lossy_text(line@)),
        text.1 == characters_before(without_newline(lossy_text(line@)), byte_column as int),
        valid_utf8(line@) ==> text.0@ == without_newline(decode_utf8(line@)) && text.1
            == characters_before(without_newline(decode_utf8(line@)), byte_column as int),
{
    let decoded = decode_lossy(line);
    character_column(decoded.as_str(), byte_column)
}

/// A cell of the live grid under the pointer.
#[derive(Clone, Copy, Debug, PartialEq, Eq, Structural)]
pub struct LinkProbe {
    pub buffer: BufferId,
    pub terminal: TerminalId,
    pub grid_col: u16,
    pub grid_row: u16,
}

/// Whether `area` shows `buffer` at a screen cell.
pub open spec fn buffer_at_cell(buffer: BufferId, col: u16, row: u16) -> spec_fn(SplitArea) -> bool {
    |area: SplitArea| area.buffer == buffer && area.content_rect.covers(col, row)
}

/// Whether `area` is `split` and shows `buffer`.
pub open spec fn is_pane(split: LeafId, buffer: BufferId) -> spec_fn(SplitArea) -> bool {
    |area: SplitArea| area.split == split && area.buffer == buffer
}

impl WindowModel {
    /// Whether `split` shows the scrollback of `buffer`.
    pub open spec fn in_scrollback(self, split: LeafId, buffer: BufferId) -> bool {
        exists|i: int|
            0 <= i < self.terminals.scrollback_views.len() && (
            #[trigger] self.terminals.scrollback_views[i]).split == split
                && self.terminals.scrollback_views[i].buffer == buffer
    }

    /// Where a live grid that can be selected from is painted.
    pub open spec fn selectable_grid(self, split: LeafId, buffer: BufferId) -> Option<Rect> {
        if !self.terminals.bindings.contains_key(buffer.0) || self.in_scrollback(split, buffer) {
            None
        } else {
            match first_match(self.split_areas, is_pane(split, buffer)) {
                Some(area) => Some(area.content_rect),
                None => None,
            }
        }
    }

    /// This window with no press waiting to become a drag.
    pub open spec fn press_settled(self) -> WindowModel {
        WindowModel {
            mouse_state: MouseState { terminal_drag_pending: None, ..self.mouse_state },
            ..self
        }
    }

    /// This window with `split` showing the scrollback of `buffer` for the
    /// time of a selection.
    pub open spec fn dropped_into_scrollback(self, split: LeafId, buffer: BufferId) -> WindowModel {
        WindowModel {
            terminals: TerminalsModel {
                scrollback_views: self.terminals.scrollback_views.push(
                    ScrollbackView { split, buffer, by_drag: true },
                ),
                ..self.terminals
            },
            ..self
        }.with_status(Some(Notice::TerminalModeDisabled))
    }

    /// This window with the primary cursor of `split` at `cursor`.
    pub open spec fn with_split_cursor(self, split: LeafId, cursor: Cursor) -> WindowModel {
        match self.documents.layout {
            Some(layout) => if layout.view_states.contains_key(split.0.0) {
                self.with_documents(
                    DocumentsModel {
                        layout: Some(
                            LayoutModel {
                                view_states: layout.view_states.insert(
                                    split.0.0,
                                    ViewStateModel { cursor, ..layout.view_states[split.0.0] },
                                ),
                                ..layout
                            },
                        ),
                        ..self.documents
                    },
                )
            } else {
                self
            },
            None => self,
        }
    }

    /// The primary cursor of `split`.
    pub open spec fn split_cursor(self, split: LeafId) -> Option<Cursor> {
        match self.documents.layout {
            Some(layout) => if layout.view_states.contains_key(split.0.0) {
                Some(layout.view_states[split.0.0].cursor)
            } else {
                None
            },
            None => None,
        }
    }

    /// The end of the terminal cell at `pos` of `buffer`.
    pub open spec fn grid_cell_end(self, buffer: BufferId, pos: u64) -> int {
        if self.documents.buffers.contains_key(buffer.0) {
            cell_end(self.documents.buffers[buffer.0].content, pos as int)
        } else {
            pos as int
        }
    }
}

/// The start of a cursor's selection.
pub open spec fn selection_start(cursor: Cursor) -> u64 {
    match cursor.anchor {
        Some(anchor) => if anchor < cursor.position {
            anchor
        } else {
            cursor.position
        },
        None => cursor.position,
    }
}

/// The end of a cursor's selection.
pub open spec fn selection_end(cursor: Cursor) -> u64 {
    match cursor.anchor {
        Some(anchor) => if anchor < cursor.position {
            cursor.position
        } else {
            anchor
        },
        None => cursor.position,
    }
}

/// What a drag over a grid selects, between the cell where it began and the
/// cell where it is. A selection ends before its second bound, and both cells
/// belong to it: so the later one of them counts with its end.
pub open spec fn drag_selection(
    anchor_start: u64,
    anchor_end: u64,
    head_start: u64,
    head_end: u64,
) -> Cursor {
    if head_start >= anchor_start {
        Cursor { position: head_end, anchor: Some(anchor_start) }
    } else {
        Cursor { position: head_start, anchor: Some(anchor_end) }
    }
}

impl Window {
    /// The cell of a live terminal under the pointer, where a link may be.
    pub fn live_link_probe(&self, col: u16, row: u16) -> (probe: Option<LinkProbe>)
        ensures
            probe == (match self@.terminal_area_at(col, row) {
                Some(area) => if self.focused_terminal_live && self@.live_terminal(
                    area.buffer,
                ) is Some {
                    Some(
                        LinkProbe {
                            buffer: area.buffer,
                            terminal: self@.terminals.terminal_of(area.buffer)->0,
                            grid_col: (col - area.content_rect.x) as u16,
                            grid_row: (row - area.content_rect.y) as u16,
                        },
                    )
                } else {
                    None
                },
                None => None,
            }),
    {
        if !self.focused_terminal_live {
            return None;
        }
        let area = match self.get_terminal_content_area_at_position(col, row) {
            Some(area) => area,
            None => {
                return None;
            },
        };
        proof {
            crate::lists::lemma_first_match_sound(
                self@.split_areas,
                crate::terminal_mouse::terminal_at_cell(self@.terminals, col, row),
            );
        }
        let terminal = match self.terminals.get_terminal_id(area.buffer) {
            Some(terminal) => terminal,
            None => {
                return None;
            },
        };
        if !self.terminals.live.contains_key(&terminal.0) {
            return None;
        }
        Some(
            LinkProbe {
                buffer: area.buffer,
                terminal,
                grid_col: col - area.content_rect.x,
                grid_row: row - area.content_rect.y,
            },
        )
    }

    /// The split of the active buffer under the pointer, where that buffer is
    /// the scrollback of a terminal.
    pub fn scrollback_link_probe(&self, col: u16, row: u16) -> (probe: Option<SplitArea>)
        ensures
            probe == (if !self.focused_terminal_live && self@.terminals.bindings.contains_key(
                self.documents.active_buffer.0,
            ) && self@.documents.buffers.contains_key(self.documents.active_buffer.0) {
                first_match(
                    self.split_areas@,
                    buffer_at_cell(self.documents.active_buffer, col, row),
                )
            } else {
                None
            }),
    {
        let active = self.documents.active_buffer;
        if self.focused_terminal_live || !self.terminals.bindings.contains_key(&active.0)
            || !self.documents.buffers.contains_key(&active.0) {
            return None;
        }
        let ghost wanted = buffer_at_cell(active, col, row);
        let mut at: usize = 0;
        while at < self.split_areas.len()
            invariant
                at <= self.split_areas.len(),
                wanted == buffer_at_cell(active, col, row),
                active == self.documents.active_buffer,
                !self.focused_terminal_live,
                self@.terminals.bindings.contains_key(active.0),
                self@.documents.buffers.contains_key(active.0),
                forall|i: int| 0 <= i < at ==> !wanted(#[trigger] self.split_areas@[i]),
            decreases self.split_areas.len() - at,
        {
            let area = self.split_areas[at];
            if area.buffer == active && area.content_rect.contains_cell(col, row) {
                proof {
                    lemma_first_match_found(self.split_areas@, wanted, at as int);
                }
                return Some(area);
            }
            at = at + 1;
        }
        proof {
            lemma_first_match_none(self.split_areas@, wanted);
        }
        None
    }

    /// Whether `split` shows the scrollback of `buffer`.
    pub fn split_terminal_scrollback(&self, split: LeafId, buffer: BufferId) -> (shown: bool)
        ensures
            shown == self@.in_scrollback(split, buffer),
    {
        let mut at: usize = 0;
        while at < self.terminals.scrollback_views.len()
            invariant
                at <= self.terminals.scrollback_views.len(),
                forall|i: int|
                    0 <= i < at ==> !((#[trigger] self.terminals.scrollback_views@[i]).split
                        == split && self.terminals.scrollback_views@[i].buffer == buffer),
            decreases self.terminals.scrollback_views.len() - at,
        {
            let view = self.terminals.scrollback_views[at];
            if view.split == split && view.buffer == buffer {
                proof {
                    assert(self@.terminals.scrollback_views[at as int].split == split);
                }
                return true;
            }
            at = at + 1;
        }
        false
    }

    /// Drops a live grid into read-only scrollback for a selection gesture.
    /// Returns where it is painted; none where there is no such live grid, and
    /// then nothing but the pending press changes.
    pub fn drop_terminal_grid_into_selection_scrollback(
        &mut self,
        split_id: LeafId,
        buffer_id: BufferId,
    ) -> (rect: Option<Rect>)
        ensures
            rect == old(self)@.selectable_grid(split_id, buffer_id),
            final(self)@ == if rect is Some {
                old(self)@.press_settled().dropped_into_scrollback(split_id, buffer_id)
            } else {
                old(self)@.press_settled()
            },
    {
        self.mouse_state.terminal_drag_pending = None;
        if !self.terminals.bindings.contains_key(&buffer_id.0) || self.split_terminal_scrollback(
            split_id,
            buffer_id,
        ) {
            return None;
        }
        let ghost wanted = is_pane(split_id, buffer_id);
        let mut at: usize = 0;
        while at < self.split_areas.len()
            invariant
                at <= self.split_areas.len(),
                wanted == is_pane(split_id, buffer_id),
                self@ == old(self)@.press_settled(),
                old(self)@.terminals.bindings.contains_key(buffer_id.0),
                !old(self)@.in_scrollback(split_id, buffer_id),
                forall|i: int| 0 <= i < at ==> !wanted(#[trigger] self.split_areas@[i]),
            decreases self.split_areas.len() - at,
        {
            let area = self.split_areas[at];
            if area.split == split_id && area.buffer == buffer_id {
                proof {
                    lemma_first_match_found(self.split_areas@, wanted, at as int);
                }
                self.terminals.scrollback_views.push(
                    ScrollbackView { split: split_id, buffer: buffer_id, by_drag: true },
                );
                self.set_status_message(Notice::TerminalModeDisabled);
                return Some(area.content_rect);
            }
            at = at + 1;
        }
        proof {
            lemma_first_match_none(self.split_areas@, wanted);
        }
        None
    }

    /// The end of the terminal cell at `pos` of `buffer_id`.
    pub fn terminal_grid_cell_end(&self, buffer_id: BufferId, pos: u64) -> (end: u64)
        ensures
            end == self@.grid_cell_end(buffer_id, pos),
    {
        match self.documents.buffers.get(&buffer_id.0) {
            Some(state) => terminal_grid_cell_end_in_buffer(&state.content, pos),
            None => pos,
        }
    }

    /// Moves the primary cursor of `split`.
    fn set_split_cursor(&mut self, split: LeafId, cursor: Cursor)
        ensures
            final(self)@ == old(self)@.with_split_cursor(split, cursor),
    {
        let ghost before = self@;
        let layout = self.documents.layout.take();
        match layout {
            Some(mut layout) => {
                match layout.view_states.remove(&split.0.0) {
                    Some(mut state) => {
                        state.cursor = cursor;
                        layout.view_states.insert(split.0.0, state);
                    },
                    None => {},
                }
                proof {
                    let model = before.with_split_cursor(split, cursor).documents.layout->0;
                    assert(layout@.view_states =~= model.view_states);
                }
                self.documents.layout = Some(layout);
            },
            None => {},
        }
    }

    /// The primary cursor of `split`.
    fn get_split_cursor(&self, split: LeafId) -> (cursor: Option<Cursor>)
        ensures
            cursor == self@.split_cursor(split),
    {
        match &self.documents.layout {
            Some(layout) => match layout.view_states.get(&split.0.0) {
                Some(state) => Some(state.cursor),
                None => None,
            },
            None => None,
        }
    }

    /// Starts the selection of a drag over a grid that was dropped into
    /// scrollback, from the cell at `anchor_start` to the cell at `head_start`.
    pub fn begin_terminal_grid_selection(
        &mut self,
        split_id: LeafId,
        buffer_id: BufferId,
        anchor_start: u64,
        head_start: u64,
    )
        ensures
            ({
                let anchor_end = old(self)@.grid_cell_end(buffer_id, anchor_start) as u64;
                let head_end = old(self)@.grid_cell_end(buffer_id, head_start) as u64;
                let selection = drag_selection(anchor_start, anchor_end, head_start, head_end);
                let placed = old(self)@.with_split_cursor(split_id, selection);
                final(self)@ == WindowModel {
                    mouse_state: MouseState {
                        dragging_text_selection: true,
                        drag_selection_split: Some(split_id),
                        drag_selection_anchor: selection.anchor,
                        terminal_drag_anchor_end: Some(anchor_end),
                        ..placed.mouse_state
                    },
                    ..placed
                }
            }),
    {
        let anchor_end = self.terminal_grid_cell_end(buffer_id, anchor_start);
        let (anchor, head): (u64, u64) = if head_start >= anchor_start {
            (anchor_start, self.terminal_grid_cell_end(buffer_id, head_start))
        } else {
            (anchor_end, head_start)
        };
        self.set_split_cursor(split_id, Cursor { position: head, anchor: Some(anchor) });
        self.mouse_state.dragging_text_selection = true;
        self.mouse_state.drag_selection_split = Some(split_id);
        self.mouse_state.drag_selection_anchor = Some(anchor);
        self.mouse_state.terminal_drag_anchor_end = Some(anchor_end);
    }

    /// Puts the cursor on the cell of a double or triple click, before the
    /// word or the line there is selected.
    pub fn place_terminal_grid_cursor(&mut self, split_id: LeafId, pos: u64)
        ensures
            final(self)@ == old(self)@.with_split_cursor(
                split_id,
                (Cursor { position: pos, anchor: None }),
            ),
    {
        self.set_split_cursor(split_id, Cursor { position: pos, anchor: None });
    }

    /// Arms the extension of a selected word by whole words.
    pub fn begin_terminal_grid_word_selection(&mut self, split_id: LeafId)
        ensures
            final(self)@ == match old(self)@.split_cursor(split_id) {
                Some(cursor) => WindowModel {
                    mouse_state: MouseState {
                        dragging_text_selection: true,
                        drag_selection_split: Some(split_id),
                        drag_selection_anchor: Some(selection_start(cursor)),
                        drag_selection_by_words: true,
                        drag_selection_word_end: Some(selection_end(cursor)),
                        ..old(self).mouse_state
                    },
                    ..old(self)@
                },
                None => old(self)@,
            },
    {
        if let Some(cursor) = self.get_split_cursor(split_id) {
            let (start, end): (u64, u64) = match cursor.anchor {
                Some(anchor) => if anchor < cursor.position {
                    (anchor, cursor.position)
                } else {
                    (cursor.position, anchor)
                },
                None => (cursor.position, cursor.position),
            };
            self.mouse_state.dragging_text_selection = true;
            self.mouse_state.drag_selection_split = Some(split_id);
            self.mouse_state.drag_selection_anchor = Some(start);
            self.mouse_state.drag_selection_by_words = true;
            self.mouse_state.drag_selection_word_end = Some(end);
        }
    }

    /// Arms the publication of a selection that was made by a triple click.
    pub fn arm_terminal_selection_publication(&mut self, split_id: LeafId)
        ensures
            final(self)@ == match old(self)@.split_cursor(split_id) {
                Some(cursor) => WindowModel {
                    mouse_state: MouseState {
                        dragging_text_selection: true,
                        drag_selection_split: Some(split_id),
                        drag_selection_anchor: Some(selection_start(cursor)),
                        drag_selection_by_words: false,
                        drag_selection_word_end: None,
                        ..old(self).mouse_state
                    },
                    ..old(self)@
                },
                None => old(self)@,
            },
    {
        if let Some(cursor) = self.get_split_cursor(split_id) {
            let start: u64 = match cursor.anchor {
                Some(anchor) => if anchor < cursor.position {
                    anchor
                } else {
                    cursor.position
                },
                None => cursor.position,
            };
            self.mouse_state.dragging_text_selection = true;
            self.mouse_state.drag_selection_split = Some(split_id);
            self.mouse_state.drag_selection_anchor = Some(start);
            self.mouse_state.drag_selection_by_words = false;
            self.mouse_state.drag_selection_word_end = None;
        }
    }
}

} // verus!
