//! The mouse over terminals: which events a program gets, as what and where, and
//! what becomes of a press until it is over.
use vstd::prelude::*;

use crate::geometry::Rect;
use crate::ids::LeafId;
use crate::ids::TerminalId;
use crate::lists::first_match;
use crate::lists::lemma_first_match_found;
use crate::lists::lemma_first_match_none;
use crate::lists::lemma_first_match_sound;
use crate::mouse::MouseButton;
use crate::mouse::MouseGestureOwner;
use crate::terminal_mouse::retirement_of;
use crate::terminal_mouse::retirements;
use crate::terminal_mouse::shows_terminal;
use crate::terminal_mouse::terminal_at_cell;
use crate::terminal_mouse::CapturedMouseRoute;
use crate::terminal_mouse::KeyModifiers;
use crate::terminal_mouse::MouseEvent;
use crate::terminal_mouse::MouseEventKind;
use crate::terminal_mouse::TerminalMouseButton;
use crate::terminal_mouse::TerminalMouseEventKind;
use crate::terminal_mouse::TerminalMouseForwarding;
use crate::terminal_mouse::TerminalMouseReport;
use crate::window::SplitArea;
use crate::window::WindowModel;

verus! {

/// Whether a cell of the screen lies within a rectangle.
pub open spec fn lies_in(rect: Rect, col: u16, row: u16) -> bool {
    &&& rect.x <= col
    &&& col < rect.x + rect.width
    &&& rect.y <= row
    &&& row < rect.y + rect.height
}

/// Whether a split shows a terminal under a cell of the screen.
pub open spec fn has_terminal_at(window: WindowModel, area: SplitArea, col: u16, row: u16) -> bool {
    lies_in(area.content_rect, col, row) && window.terminals.bindings.contains_key(area.buffer.0)
}

/// Whether the `i`-th split is the one whose terminal is under a cell of the screen.
pub open spec fn is_under(window: WindowModel, i: int, col: u16, row: u16) -> bool {
    &&& 0 <= i < window.split_areas.len()
    &&& has_terminal_at(window, window.split_areas[i], col, row)
    &&& forall|j: int|
        0 <= j < i ==> !has_terminal_at(window, #[trigger] window.split_areas[j], col, row)
}

/// Whether an event begins something new and is not kept for links: neither a drag
/// nor a release, and neither a press of the left button nor a motion with Ctrl held.
pub open spec fn may_be_offered(event: MouseEvent) -> bool {
    match event.kind {
        MouseEventKind::Drag(_) | MouseEventKind::Up(_) => false,
        MouseEventKind::Down(MouseButton::Left) | MouseEventKind::Moved => !event.modifiers.control,
        _ => true,
    }
}

/// Whether the pointer is over the focused live terminal, which the `i`-th split shows.
pub open spec fn is_over_focused(window: WindowModel, i: int, col: u16, row: u16) -> bool {
    &&& window.focused_terminal_live
    &&& is_under(window, i, col, row)
    &&& window.split_areas[i].buffer == window.documents.active_buffer
    &&& window.terminals.live.contains_key(
        window.terminals.bindings[window.split_areas[i].buffer.0].0,
    )
}

/// Whether an event is a turn of a wheel in any direction.
pub open spec fn turns_wheel(event: MouseEvent) -> bool {
    event.kind == MouseEventKind::ScrollUp || event.kind == MouseEventKind::ScrollDown || event.kind
        == MouseEventKind::ScrollLeft || event.kind == MouseEventKind::ScrollRight
}

/// The terminal that the `i`-th split shows.
pub open spec fn terminal_in(window: WindowModel, i: int) -> TerminalId {
    window.terminals.bindings[window.split_areas[i].buffer.0]
}

/// A wheel that is turned over the focused terminal goes to its program where the
/// program asked for the mouse or is on the alternate screen, and stays with the editor
/// where it is neither.
pub proof fn a_wheel_goes_to_full_screen_programs(
    window: WindowModel,
    i: int,
    col: u16,
    row: u16,
    event: MouseEvent,
    forwarded: Option<Option<TerminalMouseReport>>,
    after: WindowModel,
)
    requires
        is_over_focused(window, i, col, row),
        turns_wheel(event),
        window.is_forwarded(
            col,
            row,
            event,
            TerminalMouseForwarding::Requested,
            forwarded,
            after,
        ),
    ensures
        ({
            let program = window.terminals.live[terminal_in(window, i).0];
            forwarded is Some <==> program.wants_mouse || program.alternate_screen
        }),
{
    lemma_under(window, i, col, row);
}

/// Where programs get the events that they asked for, a press over the focused terminal
/// goes to a program that asked for the mouse, unless Shift is held.
pub proof fn a_press_goes_to_a_program_that_asked(
    window: WindowModel,
    i: int,
    col: u16,
    row: u16,
    event: MouseEvent,
    button: MouseButton,
    forwarded: Option<Option<TerminalMouseReport>>,
    after: WindowModel,
)
    requires
        is_over_focused(window, i, col, row),
        event.kind == MouseEventKind::Down(button),
        may_be_offered(event),
        window.is_forwarded(
            col,
            row,
            event,
            TerminalMouseForwarding::Requested,
            forwarded,
            after,
        ),
    ensures
        forwarded is Some <==> window.terminals.live[terminal_in(window, i).0].wants_mouse
            && !event.modifiers.shift,
{
    lemma_under(window, i, col, row);
}

/// Motion without a button goes to a program that asked for all motion, and to no
/// other.
pub proof fn motion_goes_to_a_program_that_asked_for_all_of_it(
    window: WindowModel,
    i: int,
    col: u16,
    row: u16,
    event: MouseEvent,
    forwarded: Option<Option<TerminalMouseReport>>,
    after: WindowModel,
)
    requires
        is_over_focused(window, i, col, row),
        event.kind == MouseEventKind::Moved,
        !event.modifiers.control,
        window.is_forwarded(
            col,
            row,
            event,
            TerminalMouseForwarding::Requested,
            forwarded,
            after,
        ),
    ensures
        forwarded is Some <==> window.terminals.live[terminal_in(window, i).0].wants_mouse_motion,
{
    lemma_under(window, i, col, row);
}

/// Where programs on the alternate screen get the mouse they get every event that may be
/// offered, whether they asked for it or not, and no other program gets any.
pub proof fn the_alternate_screen_gets_the_mouse(
    window: WindowModel,
    i: int,
    col: u16,
    row: u16,
    event: MouseEvent,
    forwarded: Option<Option<TerminalMouseReport>>,
    after: WindowModel,
)
    requires
        is_over_focused(window, i, col, row),
        may_be_offered(event),
        window.is_forwarded(
            col,
            row,
            event,
            TerminalMouseForwarding::AltScreen,
            forwarded,
            after,
        ),
    ensures
        forwarded is Some <==> window.terminals.live[terminal_in(window, i).0].alternate_screen,
{
    lemma_under(window, i, col, row);
}

/// Nothing goes to a program where the mouse is kept for the editor, where the event
/// continues a press or is kept for links, where no live terminal is focused, or where
/// the pointer is over no terminal or over one that is not in front; and then nothing
/// changes.
pub proof fn the_editor_keeps_its_events(
    window: WindowModel,
    col: u16,
    row: u16,
    event: MouseEvent,
    forwarding: TerminalMouseForwarding,
    forwarded: Option<Option<TerminalMouseReport>>,
    after: WindowModel,
)
    requires
        window.is_forwarded(col, row, event, forwarding, forwarded, after),
        forwarding == TerminalMouseForwarding::Never || !may_be_offered(event)
            || !window.focused_terminal_live || (forall|i: int|
            #![trigger window.split_areas[i]]
            is_under(window, i, col, row) ==> window.split_areas[i].buffer
                != window.documents.active_buffer || !window.terminals.live.contains_key(
                terminal_in(window, i).0,
            )),
    ensures
        forwarded is None,
        after == window,
{
    if exists|i: int| #[trigger] is_under(window, i, col, row) {
        let i = choose|i: int| #[trigger] is_under(window, i, col, row);
        assert(window.split_areas[i] == window.split_areas[i]);
        lemma_under(window, i, col, row);
    } else {
        let wanted = terminal_at_cell(window.terminals, col, row);
        assert forall|i: int| 0 <= i < window.split_areas.len() implies !wanted(
            #[trigger] window.split_areas[i],
        ) by {
            lemma_nothing_under(window, i, col, row);
        }
        lemma_first_match_none(window.split_areas, wanted);
    }
}

/// Whether a report says of the mouse what an event said.
pub open spec fn says(kind: TerminalMouseEventKind, event: MouseEventKind) -> bool {
    match event {
        MouseEventKind::Down(MouseButton::Left) => kind == TerminalMouseEventKind::Down(
            TerminalMouseButton::Left,
        ),
        MouseEventKind::Down(MouseButton::Right) => kind == TerminalMouseEventKind::Down(
            TerminalMouseButton::Right,
        ),
        MouseEventKind::Down(MouseButton::Middle) => kind == TerminalMouseEventKind::Down(
            TerminalMouseButton::Middle,
        ),
        MouseEventKind::Up(MouseButton::Left) => kind == TerminalMouseEventKind::Up(
            TerminalMouseButton::Left,
        ),
        MouseEventKind::Up(MouseButton::Right) => kind == TerminalMouseEventKind::Up(
            TerminalMouseButton::Right,
        ),
        MouseEventKind::Up(MouseButton::Middle) => kind == TerminalMouseEventKind::Up(
            TerminalMouseButton::Middle,
        ),
        MouseEventKind::Drag(MouseButton::Left) => kind == TerminalMouseEventKind::Drag(
            TerminalMouseButton::Left,
        ),
        MouseEventKind::Drag(MouseButton::Right) => kind == TerminalMouseEventKind::Drag(
            TerminalMouseButton::Right,
        ),
        MouseEventKind::Drag(MouseButton::Middle) => kind == TerminalMouseEventKind::Drag(
            TerminalMouseButton::Middle,
        ),
        MouseEventKind::Moved => kind == TerminalMouseEventKind::Moved,
        MouseEventKind::ScrollUp => kind == TerminalMouseEventKind::ScrollUp,
        MouseEventKind::ScrollDown => kind == TerminalMouseEventKind::ScrollDown,
        MouseEventKind::ScrollLeft => kind == TerminalMouseEventKind::ScrollLeft,
        MouseEventKind::ScrollRight => kind == TerminalMouseEventKind::ScrollRight,
    }
}

/// What goes to a program is reported to the terminal under the pointer, as what
/// happened, at the cell of the terminal's own grid, with the keys that were held.
pub proof fn an_event_is_reported_as_it_was(
    window: WindowModel,
    i: int,
    col: u16,
    row: u16,
    event: MouseEvent,
    forwarding: TerminalMouseForwarding,
    forwarded: Option<Option<TerminalMouseReport>>,
    after: WindowModel,
)
    requires
        is_under(window, i, col, row),
        window.is_forwarded(col, row, event, forwarding, forwarded, after),
        forwarded is Some,
    ensures
        ({
            let rect = window.split_areas[i].content_rect;
            &&& forwarded->0 is Some
            &&& (forwarded->0)->0.terminal_id == terminal_in(window, i)
            &&& rect.x + (forwarded->0)->0.col == col
            &&& rect.y + (forwarded->0)->0.row == row
            &&& says((forwarded->0)->0.kind, event.kind)
            &&& (forwarded->0)->0.modifiers == event.modifiers
        }),
{
    lemma_under(window, i, col, row);
}

/// A press that goes to a program makes its terminal the owner of the button, until the
/// press is over. No other button changes its owner, and nothing but a press changes
/// any.
pub proof fn a_forwarded_press_is_captured(
    window: WindowModel,
    i: int,
    col: u16,
    row: u16,
    event: MouseEvent,
    forwarding: TerminalMouseForwarding,
    forwarded: Option<Option<TerminalMouseReport>>,
    after: WindowModel,
    other: MouseButton,
)
    requires
        is_under(window, i, col, row),
        window.is_forwarded(col, row, event, forwarding, forwarded, after),
        forwarded is Some,
    ensures
        ({
            let held = window.mouse_state.gesture_captures@;
            let now = after.mouse_state.gesture_captures@;
            &&& event.kind == MouseEventKind::Down(other) ==> now.contains_key(other) && now[other]
                == (MouseGestureOwner::Terminal {
                split_id: window.split_areas[i].split,
                terminal_id: terminal_in(window, i),
                content_rect: window.split_areas[i].content_rect,
            })
            &&& event.kind != MouseEventKind::Down(other) ==> {
                &&& now.contains_key(other) == held.contains_key(other)
                &&& held.contains_key(other) ==> now[other] == held[other]
            }
            &&& after == (WindowModel { mouse_state: after.mouse_state, ..window })
            &&& after.mouse_state.last_position == window.mouse_state.last_position
            &&& after.mouse_state.dragging_tab == window.mouse_state.dragging_tab
        }),
{
    lemma_under(window, i, col, row);
}

/// Whether a split paints a terminal for the owner of a press.
pub open spec fn paints(
    window: WindowModel,
    area: SplitArea,
    split: LeafId,
    terminal: TerminalId,
) -> bool {
    &&& area.split == split
    &&& window.terminals.bindings.contains_key(area.buffer.0)
    &&& window.terminals.bindings[area.buffer.0] == terminal
}

/// Whether the `i`-th split is where the terminal of a press is painted now.
pub open spec fn is_painted(
    window: WindowModel,
    i: int,
    split: LeafId,
    terminal: TerminalId,
) -> bool {
    &&& 0 <= i < window.split_areas.len()
    &&& paints(window, window.split_areas[i], split, terminal)
    &&& forall|j: int|
        0 <= j < i ==> !paints(window, #[trigger] window.split_areas[j], split, terminal)
}

/// Whether a cell of a grid is the one nearest to a cell of the screen.
pub open spec fn is_nearest(rect: Rect, col: u16, row: u16, grid_col: u16, grid_row: u16) -> bool {
    &&& grid_col < rect.width
    &&& grid_row < rect.height
    &&& col < rect.x ==> grid_col == 0
    &&& rect.x <= col < rect.x + rect.width ==> grid_col == col - rect.x
    &&& rect.x + rect.width <= col ==> grid_col == rect.width - 1
    &&& row < rect.y ==> grid_row == 0
    &&& rect.y <= row < rect.y + rect.height ==> grid_row == row - rect.y
    &&& rect.y + rect.height <= row ==> grid_row == rect.height - 1
}

/// A drag or a release of a button that a terminal owns goes to that terminal, wherever
/// the pointer is and whatever keys are held: as what it was, at the nearest cell of
/// where the terminal is painted now. The release ends the press, and the drag does
/// not.
pub proof fn a_drag_stays_with_the_terminal_that_got_the_press(
    window: WindowModel,
    i: int,
    button: MouseButton,
    split: LeafId,
    terminal: TerminalId,
    content_rect: Rect,
    event: MouseEvent,
    route: Option<CapturedMouseRoute>,
    after: WindowModel,
)
    requires
        event.kind == MouseEventKind::Drag(button) || event.kind == MouseEventKind::Up(button),
        window.mouse_state.gesture_captures@.contains_key(button),
        window.mouse_state.gesture_captures@[button] == (MouseGestureOwner::Terminal {
            split_id: split,
            terminal_id: terminal,
            content_rect,
        }),
        is_painted(window, i, split, terminal),
        window.split_areas[i].content_rect.width > 0,
        window.split_areas[i].content_rect.height > 0,
        window.is_routed(event, route, after),
    ensures
        match route {
            Some(CapturedMouseRoute::Terminal(Some(report))) => {
                &&& report.terminal_id == terminal
                &&& says(report.kind, event.kind)
                &&& report.modifiers == event.modifiers
                &&& is_nearest(
                    window.split_areas[i].content_rect,
                    event.column,
                    event.row,
                    report.col,
                    report.row,
                )
            },
            _ => false,
        },
        after.mouse_state.gesture_captures@.contains_key(button) <==> event.kind
            == MouseEventKind::Drag(button),
        event.kind == MouseEventKind::Drag(button) ==> after.mouse_state.gesture_captures@[button]
            == window.mouse_state.gesture_captures@[button],
{
    let wanted = shows_terminal(window.terminals, split, terminal);
    assert forall|j: int| 0 <= j < i implies !wanted(#[trigger] window.split_areas[j]) by {
        assert(!paints(window, window.split_areas[j], split, terminal));
    }
    lemma_first_match_found(window.split_areas, wanted, i);
}

/// Where the terminal of a press is painted no more, the next drag or release ends the
/// press: the terminal is told that the button is up, at the nearest cell of where it
/// was.
pub proof fn a_terminal_that_is_gone_is_told_that_the_button_is_up(
    window: WindowModel,
    button: MouseButton,
    split: LeafId,
    terminal: TerminalId,
    content_rect: Rect,
    event: MouseEvent,
    route: Option<CapturedMouseRoute>,
    after: WindowModel,
)
    requires
        event.kind == MouseEventKind::Drag(button) || event.kind == MouseEventKind::Up(button),
        window.mouse_state.gesture_captures@.contains_key(button),
        window.mouse_state.gesture_captures@[button] == (MouseGestureOwner::Terminal {
            split_id: split,
            terminal_id: terminal,
            content_rect,
        }),
        forall|i: int|
            0 <= i < window.split_areas.len() ==> !paints(
                window,
                #[trigger] window.split_areas[i],
                split,
                terminal,
            ),
        content_rect.width > 0,
        content_rect.height > 0,
        window.is_routed(event, route, after),
    ensures
        match route {
            Some(CapturedMouseRoute::Terminal(Some(report))) => {
                &&& report.terminal_id == terminal
                &&& says(report.kind, MouseEventKind::Up(button))
                &&& report.modifiers == holding_nothing()
                &&& is_nearest(content_rect, event.column, event.row, report.col, report.row)
            },
            _ => false,
        },
        !after.mouse_state.gesture_captures@.contains_key(button),
{
    let wanted = shows_terminal(window.terminals, split, terminal);
    assert forall|i: int| 0 <= i < window.split_areas.len() implies !wanted(
        #[trigger] window.split_areas[i],
    ) by {
        assert(!paints(window, window.split_areas[i], split, terminal));
    }
    lemma_first_match_none(window.split_areas, wanted);
}

/// No key is held.
pub open spec fn holding_nothing() -> KeyModifiers {
    KeyModifiers {
        shift: false,
        control: false,
        alt: false,
        super_key: false,
        hyper: false,
        meta: false,
    }
}

/// A press that the editor owns stays with the editor until it is released; a button
/// that nobody owns, and an event that continues no press, are routed nowhere and change
/// nothing. What other buttons do is left alone.
pub proof fn a_press_of_the_editor_stays_with_it(
    window: WindowModel,
    button: MouseButton,
    other: MouseButton,
    event: MouseEvent,
    route: Option<CapturedMouseRoute>,
    after: WindowModel,
)
    requires
        window.is_routed(event, route, after),
    ensures
        ({
            let held = window.mouse_state.gesture_captures@;
            let now = after.mouse_state.gesture_captures@;
            let continues = event.kind == MouseEventKind::Drag(button) || event.kind
                == MouseEventKind::Up(button);
            &&& continues && held.contains_key(button) && held[button] is Fresh ==> {
                &&& route == Some(CapturedMouseRoute::Fresh)
                &&& now.contains_key(button) <==> event.kind == MouseEventKind::Drag(button)
            }
            &&& continues && !held.contains_key(button) ==> route is None && after == window
            &&& !(event.kind is Drag) && !(event.kind is Up) ==> route is None && after == window
            &&& continues && other != button ==> {
                &&& now.contains_key(other) == held.contains_key(other)
                &&& held.contains_key(other) ==> now[other] == held[other]
            }
            &&& after == (WindowModel { mouse_state: after.mouse_state, ..window })
        }),
{
}

/// Whether a terminal owns a button, and is somewhere to be told of.
pub open spec fn owes_release(window: WindowModel, button: MouseButton, terminal: TerminalId) -> bool {
    let held = window.mouse_state.gesture_captures@;
    &&& held.contains_key(button)
    &&& held[button] matches MouseGestureOwner::Terminal { split_id, terminal_id, content_rect }
        && terminal_id == terminal && content_rect.width > 0 && content_rect.height > 0 && (forall|
        i: int,
    |
        0 <= i < window.split_areas.len() && paints(
            window,
            #[trigger] window.split_areas[i],
            split_id,
            terminal_id,
        ) ==> window.split_areas[i].content_rect.width > 0
            && window.split_areas[i].content_rect.height > 0)
}

/// Giving up the gestures of a window tells every terminal that owns a button that the
/// button is up, and tells nobody anything else.
pub proof fn giving_gestures_up_releases_every_button(
    window: WindowModel,
    button: MouseButton,
    terminal: TerminalId,
)
    ensures
        owes_release(window, button, terminal) ==> exists|k: int|
            0 <= k < retirements(window).len() && (#[trigger] retirements(window)[k]).terminal_id
                == terminal && says(retirements(window)[k].kind, MouseEventKind::Up(button))
                && retirements(window)[k].modifiers == holding_nothing(),
        forall|k: int|
            0 <= k < retirements(window).len() ==> {
                let report = #[trigger] retirements(window)[k];
                let held = window.mouse_state.gesture_captures@;
                exists|b: MouseButton| #[trigger]
                    held.contains_key(b) && says(report.kind, MouseEventKind::Up(b)) && (held[b]
                        matches MouseGestureOwner::Terminal { terminal_id, .. } && terminal_id
                        == report.terminal_id)
            },
        retirements(window).len() <= 3,
{
    let held = window.mouse_state.gesture_captures@;
    let (col, row) = match window.mouse_state.last_position {
        Some(position) => position,
        None => (0u16, 0u16),
    };
    let left = retirement_of(window, MouseButton::Left, col, row);
    let right = retirement_of(window, MouseButton::Right, col, row);
    let middle = retirement_of(window, MouseButton::Middle, col, row);
    let all = retirements(window);
    assert(all =~= left + right + middle);
    if owes_release(window, button, terminal) {
        lemma_retirement_due(window, button, terminal, col, row);
        let k: int = match button {
            MouseButton::Left => 0,
            MouseButton::Right => left.len() as int,
            MouseButton::Middle => (left.len() + right.len()) as int,
        };
        assert(all[k] == retirement_of(window, button, col, row)[0]);
    }
    assert forall|k: int| 0 <= k < all.len() implies exists|b: MouseButton| #[trigger]
        held.contains_key(b) && says((#[trigger] all[k]).kind, MouseEventKind::Up(b)) && (held[b]
            matches MouseGestureOwner::Terminal { terminal_id, .. } && terminal_id
            == all[k].terminal_id) by {
        if k < left.len() {
            assert(all[k] == left[k]);
            assert(held.contains_key(MouseButton::Left));
        } else if k < left.len() + right.len() {
            assert(all[k] == right[k - left.len()]);
            assert(held.contains_key(MouseButton::Right));
        } else {
            assert(all[k] == middle[k - left.len() - right.len()]);
            assert(held.contains_key(MouseButton::Middle));
        }
    }
}

proof fn lemma_retirement_due(
    window: WindowModel,
    button: MouseButton,
    terminal: TerminalId,
    col: u16,
    row: u16,
)
    requires
        owes_release(window, button, terminal),
    ensures
        retirement_of(window, button, col, row).len() == 1,
        retirement_of(window, button, col, row)[0].terminal_id == terminal,
        says(retirement_of(window, button, col, row)[0].kind, MouseEventKind::Up(button)),
        retirement_of(window, button, col, row)[0].modifiers == holding_nothing(),
{
    let owner = window.mouse_state.gesture_captures@[button];
    let split = owner->split_id;
    let wanted = shows_terminal(window.terminals, split, terminal);
    lemma_first_match_sound(window.split_areas, wanted);
    if let Some(area) = first_match(window.split_areas, wanted) {
        let i = window.split_areas.index_of(area);
        assert(paints(window, window.split_areas[i], split, terminal));
    }
}

proof fn lemma_under(window: WindowModel, i: int, col: u16, row: u16)
    requires
        is_under(window, i, col, row),
    ensures
        window.terminal_area_at(col, row) == Some(window.split_areas[i]),
{
    let wanted = terminal_at_cell(window.terminals, col, row);
    assert forall|j: int| 0 <= j < i implies !wanted(#[trigger] window.split_areas[j]) by {
        assert(!has_terminal_at(window, window.split_areas[j], col, row));
    }
    lemma_first_match_found(window.split_areas, wanted, i);
}

proof fn lemma_nothing_under(window: WindowModel, i: int, col: u16, row: u16)
    requires
        forall|k: int| !#[trigger] is_under(window, k, col, row),
        0 <= i < window.split_areas.len(),
    ensures
        !terminal_at_cell(window.terminals, col, row)(window.split_areas[i]),
        !has_terminal_at(window, window.split_areas[i], col, row),
    decreases i,
{
    assert forall|j: int| 0 <= j < i implies !has_terminal_at(
        window,
        #[trigger] window.split_areas[j],
        col,
        row,
    ) by {
        lemma_nothing_under(window, j, col, row);
    }
    assert(!is_under(window, i, col, row));
}

} // verus!
