use fresh_editor::geometry::Rect;
use fresh_editor::ids::{BufferId, LeafId, SplitId, TerminalId};
use fresh_editor::mouse::{MouseButton, MouseGestureOwner, MouseState};
use fresh_editor::terminal_mouse::{
    captured_button_event, clamped_rect_offset, convert_kind, MouseEventKind,
    TerminalMouseButton, TerminalMouseEventKind,
};

#[test]
fn horizontal_wheel_has_a_wire_representation() {
    assert_eq!(
        convert_kind(MouseEventKind::ScrollLeft),
        TerminalMouseEventKind::ScrollLeft
    );
    assert_eq!(
        convert_kind(MouseEventKind::ScrollRight),
        TerminalMouseEventKind::ScrollRight
    );
}

#[test]
fn other_kinds_are_unchanged() {
    assert_eq!(
        convert_kind(MouseEventKind::Down(MouseButton::Left)),
        TerminalMouseEventKind::Down(TerminalMouseButton::Left)
    );
    assert_eq!(
        convert_kind(MouseEventKind::Drag(MouseButton::Middle)),
        TerminalMouseEventKind::Drag(TerminalMouseButton::Middle)
    );
    assert_eq!(
        convert_kind(MouseEventKind::Moved),
        TerminalMouseEventKind::Moved
    );
    assert_eq!(
        convert_kind(MouseEventKind::ScrollUp),
        TerminalMouseEventKind::ScrollUp
    );
    assert_eq!(
        convert_kind(MouseEventKind::ScrollDown),
        TerminalMouseEventKind::ScrollDown
    );
}

#[test]
fn captured_terminal_coordinates_clamp_to_visible_rect() {
    let rect = Rect::new(10, 20, 5, 3);
    assert_eq!(clamped_rect_offset(rect, 0, 0), Some((0, 0)));
    assert_eq!(clamped_rect_offset(rect, 99, 99), Some((4, 2)));
    assert_eq!(clamped_rect_offset(Rect::new(0, 0, 0, 3), 0, 0), None);
    assert_eq!(clamped_rect_offset(Rect::new(0, 0, 3, 0), 0, 0), None);
}

#[test]
fn only_drag_and_release_are_captured_continuations() {
    assert_eq!(
        captured_button_event(MouseEventKind::Drag(MouseButton::Left)),
        Some((MouseButton::Left, false))
    );
    assert_eq!(
        captured_button_event(MouseEventKind::Up(MouseButton::Left)),
        Some((MouseButton::Left, true))
    );
    assert_eq!(
        captured_button_event(MouseEventKind::Down(MouseButton::Left)),
        None
    );
}

#[test]
fn terminal_gesture_captures_are_independent_per_button() {
    let mut state = MouseState::default();
    let rect = Rect::new(10, 4, 80, 24);
    state.capture_terminal_mouse_gesture(
        MouseButton::Left,
        LeafId(SplitId(1)),
        TerminalId(11),
        rect,
    );
    state.capture_terminal_mouse_gesture(
        MouseButton::Right,
        LeafId(SplitId(2)),
        TerminalId(12),
        rect,
    );
    assert!(matches!(
        state.finish_mouse_gesture(MouseButton::Right),
        Some(MouseGestureOwner::Terminal {
            terminal_id: TerminalId(12),
            ..
        })
    ));
    assert!(matches!(
        state.finish_mouse_gesture(MouseButton::Left),
        Some(MouseGestureOwner::Terminal {
            terminal_id: TerminalId(11),
            ..
        })
    ));
    assert!(state.gesture_captures.is_empty());
}

#[test]
fn drag_cleanup_preserves_independent_button_captures() {
    let mut state = MouseState::default();
    state.dragging_text_selection = true;
    state.terminal_drag_pending = Some((LeafId(SplitId(1)), BufferId(2), 3, 4));
    state.start_mouse_gesture(MouseButton::Left);
    state.start_mouse_gesture(MouseButton::Right);

    state.clear_drag_state();

    assert!(!state.dragging_text_selection);
    assert!(state.terminal_drag_pending.is_none());
    assert_eq!(state.gesture_captures.len(), 2);
}

#[test]
fn taking_mouse_gestures_moves_capture_storage_without_filtering() {
    let mut state = MouseState::default();
    state.start_mouse_gesture(MouseButton::Left);
    state.capture_terminal_mouse_gesture(
        MouseButton::Right,
        LeafId(SplitId(2)),
        TerminalId(12),
        Rect::new(1, 2, 3, 4),
    );

    let captures = state.take_mouse_gestures();

    assert!(state.gesture_captures.is_empty());
    assert_eq!(captures.len(), 2);
}

#[test]
fn an_owner_is_asked_for_without_ending_the_gesture() {
    let mut state = MouseState::default();
    assert_eq!(state.mouse_gesture_owner(MouseButton::Middle), None);
    state.start_mouse_gesture(MouseButton::Middle);
    assert_eq!(
        state.mouse_gesture_owner(MouseButton::Middle),
        Some(MouseGestureOwner::Fresh)
    );
    assert_eq!(
        state.finish_mouse_gesture(MouseButton::Middle),
        Some(MouseGestureOwner::Fresh)
    );
    assert_eq!(state.finish_mouse_gesture(MouseButton::Middle), None);
}

#[test]
fn a_cell_within_the_terminal_stays_where_it_is() {
    let rect = Rect::new(10, 20, 5, 3);
    assert!(rect.contains_cell(12, 21));
    assert!(!rect.contains_cell(15, 21));
    assert_eq!(clamped_rect_offset(rect, 12, 21), Some((2, 1)));
    assert_eq!(
        clamped_rect_offset(Rect::new(u16::MAX - 1, 0, 4, 4), u16::MAX, 0),
        Some((1, 0))
    );
}
