//! Mouse events over terminals: who gets them, and what a PTY is sent.
use vstd::prelude::*;

use crate::geometry::Rect;
use crate::ids::BufferId;
use crate::ids::LeafId;
use crate::ids::TerminalId;
use crate::lists::first_match;
use crate::lists::lemma_first_match_found;
use crate::lists::lemma_first_match_none;
use crate::mouse::GestureCaptures;
use crate::mouse::MouseButton;
use crate::mouse::MouseGestureOwner;
use crate::terminals::TerminalsModel;
use crate::window::SplitArea;
use crate::window::Window;
use crate::window::WindowModel;

verus! {

/// What the mouse did.
#[derive(Clone, Copy, Debug, PartialEq, Eq, Structural)]
pub enum MouseEventKind {
    Down(MouseButton),
    Up(MouseButton),
    Drag(MouseButton),
    Moved,
    ScrollDown,
    ScrollUp,
    ScrollLeft,
    ScrollRight,
}

/// The modifier keys that are held.
#[derive(Clone, Copy, Debug, PartialEq, Eq, Structural)]
pub struct KeyModifiers {
    pub shift: bool,
    pub control: bool,
    pub alt: bool,
    pub super_key: bool,
    pub hyper: bool,
    pub meta: bool,
}

impl KeyModifiers {
    /// No modifier.
    pub open spec fn spec_none() -> KeyModifiers {
        KeyModifiers {
            shift: false,
            control: false,
            alt: false,
            super_key: false,
            hyper: false,
            meta: false,
        }
    }

    /// No modifier.
    pub fn none() -> (modifiers: KeyModifiers)
        ensures
            modifiers == KeyModifiers::spec_none(),
    {
        KeyModifiers {
            shift: false,
            control: false,
            alt: false,
            super_key: false,
            hyper: false,
            meta: false,
        }
    }
}

/// A mouse event at a screen cell.
#[derive(Clone, Copy, Debug, PartialEq, Eq, Structural)]
pub struct MouseEvent {
    pub kind: MouseEventKind,
    pub column: u16,
    pub row: u16,
    pub modifiers: KeyModifiers,
}

/// The buttons of the terminal protocols.
#[derive(Clone, Copy, Debug, PartialEq, Eq, Structural)]
pub enum TerminalMouseButton {
    Left,
    Right,
    Middle,
}

/// The events of the terminal protocols.
#[derive(Clone, Copy, Debug, PartialEq, Eq, Structural)]
pub enum TerminalMouseEventKind {
    Down(TerminalMouseButton),
    Up(TerminalMouseButton),
    Drag(TerminalMouseButton),
    Moved,
    ScrollUp,
    ScrollDown,
    ScrollLeft,
    ScrollRight,
}

/// When mouse events go to the program in a terminal.
#[derive(Clone, Copy, Debug, PartialEq, Eq, Structural)]
pub enum TerminalMouseForwarding {
    /// Never: the mouse is kept for scrollback and selection.
    Never,
    /// To any program on the alternate screen.
    AltScreen,
    /// To a program that asked for the events.
    Requested,
}

/// A mouse report that is due to a terminal, in cells of its grid.
#[derive(Clone, Copy, Debug, PartialEq, Eq, Structural)]
pub struct TerminalMouseReport {
    pub terminal_id: TerminalId,
    pub col: u16,
    pub row: u16,
    pub kind: TerminalMouseEventKind,
    pub modifiers: KeyModifiers,
}

/// Where a drag or a release goes: to the editor, or to a terminal with the
/// report that is due, if any.
#[derive(Clone, Copy, Debug, PartialEq, Eq, Structural)]
pub enum CapturedMouseRoute {
    Fresh,
    Terminal(Option<TerminalMouseReport>),
}

/// The button of an event that continues a press, and whether it ends it.
pub open spec fn continuation_of(kind: MouseEventKind) -> Option<(MouseButton, bool)> {
    match kind {
        MouseEventKind::Drag(button) => Some((button, false)),
        MouseEventKind::Up(button) => Some((button, true)),
        _ => None,
    }
}

/// The button of an event that continues a press, and whether it ends it.
pub fn captured_button_event(kind: MouseEventKind) -> (continuation: Option<(MouseButton, bool)>)
    ensures
        continuation == continuation_of(kind),
{
    match kind {
        MouseEventKind::Drag(button) => Some((button, false)),
        MouseEventKind::Up(button) => Some((button, true)),
        _ => None,
    }
}

/// `n` moved into the range from `low` to `low + size - 1`, counted from `low`.
pub open spec fn clamped_offset(n: u16, low: u16, size: u16) -> int {
    if n < low {
        0
    } else if n - low < size {
        n - low
    } else {
        size - 1
    }
}

/// The cell of `rect` that is nearest to a screen cell, counted from the
/// corner of `rect`; none where `rect` is empty.
pub open spec fn nearest_cell(rect: Rect, col: u16, row: u16) -> Option<(u16, u16)> {
    if rect.width == 0 || rect.height == 0 {
        None
    } else {
        Some(
            (
                clamped_offset(col, rect.x, rect.width) as u16,
                clamped_offset(row, rect.y, rect.height) as u16,
            ),
        )
    }
}

/// The cell of `rect` that is nearest to a screen cell.
pub fn clamped_rect_offset(rect: Rect, col: u16, row: u16) -> (cell: Option<(u16, u16)>)
    ensures
        cell == nearest_cell(rect, col, row),
        cell matches Some(c) ==> c.0 < rect.width && c.1 < rect.height,
{
    if rect.width == 0 || rect.height == 0 {
        return None;
    }
    let right: u16 = if col < rect.x {
        0
    } else {
        col - rect.x
    };
    let down: u16 = if row < rect.y {
        0
    } else {
        row - rect.y
    };
    Some(
        (
            if right < rect.width {
                right
            } else {
                rect.width - 1
            },
            if down < rect.height {
                down
            } else {
                rect.height - 1
            },
        ),
    )
}

/// The button of the terminal protocols that stands for `button`.
pub open spec fn wire_button(button: MouseButton) -> TerminalMouseButton {
    match button {
        MouseButton::Left => TerminalMouseButton::Left,
        MouseButton::Right => TerminalMouseButton::Right,
        MouseButton::Middle => TerminalMouseButton::Middle,
    }
}

/// The button of the terminal protocols that stands for `button`.
pub fn convert_button(button: MouseButton) -> (wire: TerminalMouseButton)
    ensures
        wire == wire_button(button),
{
    match button {
        MouseButton::Left => TerminalMouseButton::Left,
        MouseButton::Right => TerminalMouseButton::Right,
        MouseButton::Middle => TerminalMouseButton::Middle,
    }
}

/// The event of the terminal protocols that stands for `kind`.
pub open spec fn wire_kind(kind: MouseEventKind) -> TerminalMouseEventKind {
    match kind {
        MouseEventKind::Down(button) => TerminalMouseEventKind::Down(wire_button(button)),
        MouseEventKind::Up(button) => TerminalMouseEventKind::Up(wire_button(button)),
        MouseEventKind::Drag(button) => TerminalMouseEventKind::Drag(wire_button(button)),
        MouseEventKind::Moved => TerminalMouseEventKind::Moved,
        MouseEventKind::ScrollUp => TerminalMouseEventKind::ScrollUp,
        MouseEventKind::ScrollDown => TerminalMouseEventKind::ScrollDown,
        MouseEventKind::ScrollLeft => TerminalMouseEventKind::ScrollLeft,
        MouseEventKind::ScrollRight => TerminalMouseEventKind::ScrollRight,
    }
}

/// The event of the terminal protocols that stands for `kind`. Every kind has
/// one, the horizontal wheel too.
pub fn convert_kind(kind: MouseEventKind) -> (wire: TerminalMouseEventKind)
    ensures
        wire == wire_kind(kind),
{
    match kind {
        MouseEventKind::Down(button) => TerminalMouseEventKind::Down(convert_button(button)),
        MouseEventKind::Up(button) => TerminalMouseEventKind::Up(convert_button(button)),
        MouseEventKind::Drag(button) => TerminalMouseEventKind::Drag(convert_button(button)),
        MouseEventKind::Moved => TerminalMouseEventKind::Moved,
        MouseEventKind::ScrollUp => TerminalMouseEventKind::ScrollUp,
        MouseEventKind::ScrollDown => TerminalMouseEventKind::ScrollDown,
        MouseEventKind::ScrollLeft => TerminalMouseEventKind::ScrollLeft,
        MouseEventKind::ScrollRight => TerminalMouseEventKind::ScrollRight,
    }
}

/// The report of `event` to a terminal that is shown in `rect`; none where
/// `rect` is empty.
pub open spec fn report_in(
    terminal_id: TerminalId,
    rect: Rect,
    col: u16,
    row: u16,
    kind: TerminalMouseEventKind,
    modifiers: KeyModifiers,
) -> Option<TerminalMouseReport> {
    match nearest_cell(rect, col, row) {
        Some(cell) => Some(
            TerminalMouseReport { terminal_id, col: cell.0, row: cell.1, kind, modifiers },
        ),
        None => None,
    }
}

/// The report of an event to a terminal that is shown in `rect`.
fn make_report(
    terminal_id: TerminalId,
    rect: Rect,
    col: u16,
    row: u16,
    kind: TerminalMouseEventKind,
    modifiers: KeyModifiers,
) -> (report: Option<TerminalMouseReport>)
    ensures
        report == report_in(terminal_id, rect, col, row, kind, modifiers),
{
    match clamped_rect_offset(rect, col, row) {
        Some((c, r)) => Some(TerminalMouseReport { terminal_id, col: c, row: r, kind, modifiers }),
        None => None,
    }
}

/// Whether `area` shows a terminal at a screen cell.
pub open spec fn terminal_at_cell(terminals: TerminalsModel, col: u16, row: u16) -> spec_fn(
    SplitArea,
) -> bool {
    |area: SplitArea|
        area.content_rect.covers(col, row) && terminals.bindings.contains_key(area.buffer.0)
}

/// Whether `area` is `split_id` and shows the terminal `terminal_id`.
pub open spec fn shows_terminal(
    terminals: TerminalsModel,
    split_id: LeafId,
    terminal_id: TerminalId,
) -> spec_fn(SplitArea) -> bool {
    |area: SplitArea|
        area.split == split_id && terminals.terminal_of(area.buffer) == Some(terminal_id)
}

impl WindowModel {
    /// The painted terminal under a screen cell.
    pub open spec fn terminal_area_at(self, col: u16, row: u16) -> Option<SplitArea> {
        first_match(self.split_areas, terminal_at_cell(self.terminals, col, row))
    }

    /// Where a captured terminal is painted now.
    pub open spec fn capture_area(self, split_id: LeafId, terminal_id: TerminalId) -> Option<Rect> {
        match first_match(
            self.split_areas,
            shows_terminal(self.terminals, split_id, terminal_id),
        ) {
            Some(area) => Some(area.content_rect),
            None => None,
        }
    }

    /// The live terminal that `buffer` shows.
    pub open spec fn live_terminal(self, buffer: BufferId) -> Option<crate::terminals::Terminal> {
        match self.terminals.terminal_of(buffer) {
            Some(terminal) => if self.terminals.live.contains_key(terminal.0) {
                Some(self.terminals.live[terminal.0])
            } else {
                None
            },
            None => None,
        }
    }

    /// Whether the program in `buffer`'s terminal asked for the mouse.
    pub open spec fn wants_mouse(self, buffer: BufferId) -> bool {
        self.live_terminal(buffer) matches Some(terminal) && terminal.wants_mouse
    }

    /// Whether the program in `buffer`'s terminal asked for all motion.
    pub open spec fn wants_mouse_motion(self, buffer: BufferId) -> bool {
        self.live_terminal(buffer) matches Some(terminal) && terminal.wants_mouse_motion
    }

    /// Whether the program in `buffer`'s terminal is on the alternate screen.
    pub open spec fn on_alternate_screen(self, buffer: BufferId) -> bool {
        self.live_terminal(buffer) matches Some(terminal) && terminal.alternate_screen
    }

    /// This window with other button owners.
    pub open spec fn with_captures(self, captures: GestureCaptures) -> WindowModel {
        WindowModel { mouse_state: self.mouse_state.with_captures(captures), ..self }
    }
}

/// Whether an event is one of those that Ctrl reserves for file links.
pub open spec fn reserved_for_links(event: MouseEvent) -> bool {
    event.modifiers.control && (event.kind == MouseEventKind::Down(MouseButton::Left)
        || event.kind == MouseEventKind::Up(MouseButton::Left) || event.kind
        == MouseEventKind::Drag(MouseButton::Left) || event.kind == MouseEventKind::Moved)
}

/// Whether an event is a turn of a wheel.
pub open spec fn is_scroll(kind: MouseEventKind) -> bool {
    kind is ScrollUp || kind is ScrollDown || kind is ScrollLeft || kind is ScrollRight
}

/// Whether the forwarding policy sends `event` to the program in `buffer`.
pub open spec fn policy_forwards(
    window: WindowModel,
    buffer: BufferId,
    event: MouseEvent,
    forwarding: TerminalMouseForwarding,
) -> bool {
    match forwarding {
        TerminalMouseForwarding::Never => false,
        TerminalMouseForwarding::AltScreen => window.on_alternate_screen(buffer),
        TerminalMouseForwarding::Requested => if is_scroll(event.kind) {
            window.wants_mouse(buffer) || window.on_alternate_screen(buffer)
        } else if event.kind is Moved {
            window.wants_mouse_motion(buffer)
        } else {
            window.wants_mouse(buffer) && !event.modifiers.shift
        },
    }
}

/// The painted terminal that a new event goes to: the focused live terminal,
/// where the pointer is over it, the event is neither a continuation nor
/// reserved for links, and the policy forwards it.
pub open spec fn forward_target(
    window: WindowModel,
    col: u16,
    row: u16,
    event: MouseEvent,
    forwarding: TerminalMouseForwarding,
) -> Option<(SplitArea, TerminalId)> {
    if continuation_of(event.kind) is Some || !window.focused_terminal_live || reserved_for_links(
        event,
    ) {
        None
    } else {
        match window.terminal_area_at(col, row) {
            Some(area) => match window.terminals.terminal_of(area.buffer) {
                Some(terminal) => if area.buffer == window.documents.active_buffer
                    && policy_forwards(window, area.buffer, event, forwarding) {
                    Some((area, terminal))
                } else {
                    None
                },
                None => None,
            },
            None => None,
        }
    }
}

impl Window {
    /// The painted terminal under a screen cell.
    pub fn get_terminal_content_area_at_position(&self, col: u16, row: u16) -> (area: Option<
        SplitArea,
    >)
        ensures
            area == self@.terminal_area_at(col, row),
    {
        let ghost wanted = terminal_at_cell(self.terminals@, col, row);
        let mut at: usize = 0;
        while at < self.split_areas.len()
            invariant
                at <= self.split_areas.len(),
                wanted == terminal_at_cell(self.terminals@, col, row),
                forall|i: int| 0 <= i < at ==> !wanted(#[trigger] self.split_areas@[i]),
            decreases self.split_areas.len() - at,
        {
            let area = self.split_areas[at];
            if area.content_rect.contains_cell(col, row) && self.terminals.get_terminal_id(
                area.buffer,
            ).is_some() {
                proof {
                    lemma_first_match_found(self.split_areas@, wanted, at as int);
                }
                return Some(area);
            }
            at = at + 1;
        }
        proof {
            lemma_first_match_none(self.split_areas@, wanted);
        }
        None
    }

    /// Where a captured terminal is painted now.
    pub fn terminal_content_area_for_capture(&self, split_id: LeafId, terminal_id: TerminalId) -> (rect:
        Option<Rect>)
        ensures
            rect == self@.capture_area(split_id, terminal_id),
    {
        let ghost wanted = shows_terminal(self.terminals@, split_id, terminal_id);
        let mut at: usize = 0;
        while at < self.split_areas.len()
            invariant
                at <= self.split_areas.len(),
                wanted == shows_terminal(self.terminals@, split_id, terminal_id),
                forall|i: int| 0 <= i < at ==> !wanted(#[trigger] self.split_areas@[i]),
            decreases self.split_areas.len() - at,
        {
            let area = self.split_areas[at];
            let shown = self.terminals.get_terminal_id(area.buffer);
            if area.split == split_id && shown == Some(terminal_id) {
                proof {
                    lemma_first_match_found(self.split_areas@, wanted, at as int);
                }
                return Some(area.content_rect);
            }
            at = at + 1;
        }
        proof {
            lemma_first_match_none(self.split_areas@, wanted);
        }
        None
    }

    /// Whether the program in `buffer_id`'s terminal asked for the mouse. The
    /// mouse is the program's only where it did.
    pub fn terminal_wants_mouse(&self, buffer_id: BufferId) -> (wants: bool)
        ensures
            wants == self@.wants_mouse(buffer_id),
    {
        match self.terminals.get_terminal_id(buffer_id) {
            Some(terminal) => match self.terminals.live.get(&terminal.0) {
                Some(terminal) => terminal.wants_mouse,
                None => false,
            },
            None => false,
        }
    }

    /// Whether the program in `buffer_id`'s terminal asked for all motion, the
    /// only mode that gets motion without a button.
    pub fn terminal_wants_mouse_motion(&self, buffer_id: BufferId) -> (wants: bool)
        ensures
            wants == self@.wants_mouse_motion(buffer_id),
    {
        match self.terminals.get_terminal_id(buffer_id) {
            Some(terminal) => match self.terminals.live.get(&terminal.0) {
                Some(terminal) => terminal.wants_mouse_motion,
                None => false,
            },
            None => false,
        }
    }

    /// Whether the program in `buffer_id`'s terminal is on the alternate screen.
    pub fn is_terminal_in_alternate_screen(&self, buffer_id: BufferId) -> (alternate: bool)
        ensures
            alternate == self@.on_alternate_screen(buffer_id),
    {
        match self.terminals.get_terminal_id(buffer_id) {
            Some(terminal) => match self.terminals.live.get(&terminal.0) {
                Some(terminal) => terminal.alternate_screen,
                None => false,
            },
            None => false,
        }
    }

    /// Whether the forwarding policy sends `event` to the program in `buffer`.
    fn policy_allows(
        &self,
        buffer: BufferId,
        event: MouseEvent,
        forwarding: TerminalMouseForwarding,
    ) -> (forward: bool)
        ensures
            forward == policy_forwards(self@, buffer, event, forwarding),
    {
        match forwarding {
            TerminalMouseForwarding::Never => false,
            TerminalMouseForwarding::AltScreen => self.is_terminal_in_alternate_screen(buffer),
            TerminalMouseForwarding::Requested => {
                let wants_mouse = self.terminal_wants_mouse(buffer);
                match event.kind {
                    MouseEventKind::ScrollUp
                    | MouseEventKind::ScrollDown
                    | MouseEventKind::ScrollLeft
                    | MouseEventKind::ScrollRight => wants_mouse
                        || self.is_terminal_in_alternate_screen(buffer),
                    MouseEventKind::Moved => self.terminal_wants_mouse_motion(buffer),
                    _ => wants_mouse && !event.modifiers.shift,
                }
            },
        }
    }

    /// Sends a new mouse event to the focused terminal, where it belongs to
    /// it. A press captures its button for the terminal. Returns none where
    /// the event stays with the editor, and otherwise the report that is due.
    pub fn try_forward_mouse_to_terminal(
        &mut self,
        col: u16,
        row: u16,
        event: MouseEvent,
        forwarding: TerminalMouseForwarding,
    ) -> (forwarded: Option<Option<TerminalMouseReport>>)
        ensures
            old(self)@.is_forwarded(col, row, event, forwarding, forwarded, final(self)@),
    {
        if captured_button_event(event.kind).is_some() {
            return None;
        }
        if !self.focused_terminal_live {
            return None;
        }
        let reserved = match event.kind {
            MouseEventKind::Down(MouseButton::Left)
            | MouseEventKind::Up(MouseButton::Left)
            | MouseEventKind::Drag(MouseButton::Left)
            | MouseEventKind::Moved => true,
            _ => false,
        };
        if event.modifiers.control && reserved {
            return None;
        }
        let area = match self.get_terminal_content_area_at_position(col, row) {
            Some(area) => area,
            None => {
                return None;
            },
        };
        let terminal_id = match self.terminals.get_terminal_id(area.buffer) {
            Some(terminal_id) => terminal_id,
            None => {
                return None;
            },
        };
        if area.buffer != self.documents.active_buffer {
            return None;
        }
        if !self.policy_allows(area.buffer, event, forwarding) {
            return None;
        }
        if let MouseEventKind::Down(button) = event.kind {
            self.mouse_state.capture_terminal_mouse_gesture(
                button,
                area.split,
                terminal_id,
                area.content_rect,
            );
        }
        Some(
            make_report(
                terminal_id,
                area.content_rect,
                col,
                row,
                convert_kind(event.kind),
                event.modifiers,
            ),
        )
    }
}

/// The report that ends a press which a terminal got and whose release will
/// not come; none for a press that the editor owns.
pub open spec fn retirement(
    window: WindowModel,
    button: MouseButton,
    owner: MouseGestureOwner,
    col: u16,
    row: u16,
) -> Option<TerminalMouseReport> {
    match owner {
        MouseGestureOwner::Fresh => None,
        MouseGestureOwner::Terminal { split_id, terminal_id, content_rect } => {
            let rect = match window.capture_area(split_id, terminal_id) {
                Some(rect) => rect,
                None => content_rect,
            };
            report_in(
                terminal_id,
                rect,
                col,
                row,
                TerminalMouseEventKind::Up(wire_button(button)),
                KeyModifiers::spec_none(),
            )
        },
    }
}

/// The retirement of `button`, where it is held.
pub open spec fn retirement_of(
    window: WindowModel,
    button: MouseButton,
    col: u16,
    row: u16,
) -> Seq<TerminalMouseReport> {
    let captures = window.mouse_state.gesture_captures@;
    if captures.contains_key(button) {
        match retirement(window, button, captures[button], col, row) {
            Some(report) => seq![report],
            None => Seq::empty(),
        }
    } else {
        Seq::empty()
    }
}

/// The retirements of all buttons, at the last position of the pointer.
pub open spec fn retirements(window: WindowModel) -> Seq<TerminalMouseReport> {
    let (col, row) = match window.mouse_state.last_position {
        Some(position) => position,
        None => (0u16, 0u16),
    };
    retirement_of(window, MouseButton::Left, col, row) + retirement_of(
        window,
        MouseButton::Right,
        col,
        row,
    ) + retirement_of(window, MouseButton::Middle, col, row)
}

/// The terminal of a captured press, with where it is painted now.
pub open spec fn captured_route(
    window: WindowModel,
    button: MouseButton,
    event: MouseEvent,
) -> CapturedMouseRoute {
    match window.mouse_state.gesture_captures@[button] {
        MouseGestureOwner::Fresh => CapturedMouseRoute::Fresh,
        MouseGestureOwner::Terminal { split_id, terminal_id, content_rect } => {
            CapturedMouseRoute::Terminal(
                match window.capture_area(split_id, terminal_id) {
                    Some(rect) => report_in(
                        terminal_id,
                        rect,
                        event.column,
                        event.row,
                        wire_kind(event.kind),
                        event.modifiers,
                    ),
                    None => report_in(
                        terminal_id,
                        content_rect,
                        event.column,
                        event.row,
                        TerminalMouseEventKind::Up(wire_button(button)),
                        KeyModifiers::spec_none(),
                    ),
                },
            )
        },
    }
}

/// Whether a drag or release ends the capture of its button: a release does,
/// and a terminal that is no longer painted loses it.
pub open spec fn ends_capture(window: WindowModel, button: MouseButton, release: bool) -> bool {
    release || match window.mouse_state.gesture_captures@[button] {
        MouseGestureOwner::Fresh => false,
        MouseGestureOwner::Terminal { split_id, terminal_id, .. } => window.capture_area(
            split_id,
            terminal_id,
        ) is None,
    }
}

impl WindowModel {
    /// Whether `after` is this window once a new event was offered to its terminals,
    /// and `forwarded` is what became of the event.
    pub open spec fn is_forwarded(
        self,
        col: u16,
        row: u16,
        event: MouseEvent,
        forwarding: TerminalMouseForwarding,
        forwarded: Option<Option<TerminalMouseReport>>,
        after: WindowModel,
    ) -> bool {
        match forward_target(self, col, row, event, forwarding) {
            None => forwarded is None && after == self,
            Some((area, terminal_id)) => {
                &&& forwarded == Some(
                    report_in(
                        terminal_id,
                        area.content_rect,
                        col,
                        row,
                        wire_kind(event.kind),
                        event.modifiers,
                    ),
                )
                &&& after == self.with_captures(after.mouse_state.gesture_captures)
                &&& after.mouse_state.gesture_captures@ == match event.kind {
                    MouseEventKind::Down(button) => self.mouse_state.gesture_captures@.insert(
                        button,
                        MouseGestureOwner::Terminal {
                            split_id: area.split,
                            terminal_id,
                            content_rect: area.content_rect,
                        },
                    ),
                    _ => self.mouse_state.gesture_captures@,
                }
            },
        }
    }

    /// Whether `after` is this window once an event was offered to the owner of its
    /// button, and `route` is where it went.
    pub open spec fn is_routed(
        self,
        event: MouseEvent,
        route: Option<CapturedMouseRoute>,
        after: WindowModel,
    ) -> bool {
        match continuation_of(event.kind) {
            Some((button, release)) => {
                let captures = self.mouse_state.gesture_captures@;
                if captures.contains_key(button) {
                    &&& route == Some(captured_route(self, button, event))
                    &&& after == self.with_captures(after.mouse_state.gesture_captures)
                    &&& after.mouse_state.gesture_captures@ == if ends_capture(
                        self,
                        button,
                        release,
                    ) {
                        captures.remove(button)
                    } else {
                        captures
                    }
                } else {
                    route is None && after == self
                }
            },
            None => route is None && after == self,
        }
    }
}

impl Window {
    /// Routes a drag or release to the owner of the press that it continues,
    /// whatever modifiers, overlays and pointer position are by now. A
    /// terminal that is no longer painted gets the release that it is owed.
    pub fn route_captured_mouse_event(&mut self, event: &MouseEvent) -> (route: Option<
        CapturedMouseRoute,
    >)
        ensures
            old(self)@.is_routed(*event, route, final(self)@),
    {
        let (button, release) = match captured_button_event(event.kind) {
            Some(continuation) => continuation,
            None => {
                return None;
            },
        };
        let owner = match self.mouse_state.mouse_gesture_owner(button) {
            Some(owner) => owner,
            None => {
                return None;
            },
        };
        match owner {
            MouseGestureOwner::Fresh => {
                if release {
                    self.mouse_state.finish_mouse_gesture(button);
                }
                Some(CapturedMouseRoute::Fresh)
            },
            MouseGestureOwner::Terminal { split_id, terminal_id, content_rect } => {
                let current = self.terminal_content_area_for_capture(split_id, terminal_id);
                if release || current.is_none() {
                    self.mouse_state.finish_mouse_gesture(button);
                }
                let report = match current {
                    Some(rect) => make_report(
                        terminal_id,
                        rect,
                        event.column,
                        event.row,
                        convert_kind(event.kind),
                        event.modifiers,
                    ),
                    None => make_report(
                        terminal_id,
                        content_rect,
                        event.column,
                        event.row,
                        TerminalMouseEventKind::Up(convert_button(button)),
                        KeyModifiers::none(),
                    ),
                };
                Some(CapturedMouseRoute::Terminal(report))
            },
        }
    }

    /// The report that ends a press of `owner` without its release.
    fn retire_mouse_gesture_owner(
        &self,
        button: MouseButton,
        owner: MouseGestureOwner,
        col: u16,
        row: u16,
    ) -> (report: Option<TerminalMouseReport>)
        ensures
            report == retirement(self@, button, owner, col, row),
    {
        match owner {
            MouseGestureOwner::Fresh => None,
            MouseGestureOwner::Terminal { split_id, terminal_id, content_rect } => {
                let rect = match self.terminal_content_area_for_capture(split_id, terminal_id) {
                    Some(rect) => rect,
                    None => content_rect,
                };
                make_report(
                    terminal_id,
                    rect,
                    col,
                    row,
                    TerminalMouseEventKind::Up(convert_button(button)),
                    KeyModifiers::none(),
                )
            },
        }
    }

    /// Takes `button` from its owner, and returns the report that a terminal
    /// is owed.
    pub fn cancel_mouse_gesture(&mut self, button: MouseButton, col: u16, row: u16) -> (report:
        Option<TerminalMouseReport>)
        ensures
            ({
                let captures = old(self).mouse_state.gesture_captures@;
                &&& report == if captures.contains_key(button) {
                    retirement(old(self)@, button, captures[button], col, row)
                } else {
                    None
                }
                &&& final(self)@ == old(self)@.with_captures(
                    final(self).mouse_state.gesture_captures,
                )
                &&& final(self).mouse_state.gesture_captures@ == captures.remove(button)
            }),
    {
        match self.mouse_state.finish_mouse_gesture(button) {
            Some(owner) => self.retire_mouse_gesture_owner(button, owner, col, row),
            None => None,
        }
    }

    /// Takes all buttons from their owners, and returns the reports that
    /// terminals are owed: every press that a PTY got is ended.
    pub fn cancel_terminal_mouse_gestures(&mut self) -> (reports: Vec<TerminalMouseReport>)
        ensures
            reports@ == retirements(old(self)@),
            final(self)@ == old(self)@.with_captures(GestureCaptures::none()),
    {
        let ghost before = self@;
        let (col, row): (u16, u16) = match self.mouse_state.last_position {
            Some(position) => position,
            None => (0, 0),
        };
        let captures = self.mouse_state.take_mouse_gestures();
        let mut reports: Vec<TerminalMouseReport> = Vec::new();
        if let Some(owner) = captures.get(MouseButton::Left) {
            if let Some(report) = self.retire_mouse_gesture_owner(
                MouseButton::Left,
                owner,
                col,
                row,
            ) {
                reports.push(report);
            }
        }
        proof {
            assert(reports@ =~= retirement_of(before, MouseButton::Left, col, row));
        }
        if let Some(owner) = captures.get(MouseButton::Right) {
            if let Some(report) = self.retire_mouse_gesture_owner(
                MouseButton::Right,
                owner,
                col,
                row,
            ) {
                reports.push(report);
            }
        }
        proof {
            assert(reports@ =~= retirement_of(before, MouseButton::Left, col, row)
                + retirement_of(before, MouseButton::Right, col, row));
        }
        if let Some(owner) = captures.get(MouseButton::Middle) {
            if let Some(report) = self.retire_mouse_gesture_owner(
                MouseButton::Middle,
                owner,
                col,
                row,
            ) {
                reports.push(report);
            }
        }
        proof {
            assert(reports@ =~= retirements(before));
        }
        reports
    }

    /// The focused live terminal under the pointer, which a wheel scrolls
    /// without leaving terminal mode.
    pub fn scroll_live_terminal_at_position(&self, col: u16, row: u16) -> (terminal: Option<
        TerminalId,
    >)
        ensures
            terminal == (match self@.terminal_area_at(col, row) {
                Some(area) => if self.focused_terminal_live && area.buffer
                    == self.documents.active_buffer && self@.live_terminal(area.buffer) is Some {
                    self@.terminals.terminal_of(area.buffer)
                } else {
                    None
                },
                None => None,
            }),
    {
        if !self.focused_terminal_live {
            return None;
        }
        let area = match self.get_terminal_content_area_at_position(col, row) {
            Some(area) => area,
            None => {
                return None;
            },
        };
        if area.buffer != self.documents.active_buffer {
            return None;
        }
        let terminal_id = match self.terminals.get_terminal_id(area.buffer) {
            Some(terminal_id) => terminal_id,
            None => {
                return None;
            },
        };
        if self.terminals.live.contains_key(&terminal_id.0) {
            Some(terminal_id)
        } else {
            None
        }
    }
}

} // verus!
