use fractal_viewer::controller::{
    zoom_step, Controller, InputEvent, MouseButton, Reaction, ScrollSign, ZoomStep,
};

#[test]
fn cursor_moves_are_always_consumed() {
    let mut c = Controller::new();
    let r = c.input(InputEvent::CursorMoved);
    assert_eq!(r, Reaction::TrackCursor);
    assert!(r.consumed());
    assert!(!c.is_dragging());
}

#[test]
fn left_press_begins_a_drag_once() {
    let mut c = Controller::new();
    assert_eq!(c.input(InputEvent::ButtonPressed(MouseButton::Left)), Reaction::BeginDrag);
    assert!(c.is_dragging());
    assert_eq!(c.input(InputEvent::ButtonPressed(MouseButton::Left)), Reaction::KeepDrag);
    assert!(c.is_dragging());
    assert_eq!(c.input(InputEvent::CursorMoved), Reaction::TrackCursor);
    assert!(c.is_dragging());
    let r = c.input(InputEvent::ButtonReleased(MouseButton::Left));
    assert_eq!(r, Reaction::EndDrag);
    assert!(r.consumed());
    assert!(!c.is_dragging());
    assert_eq!(c.input(InputEvent::ButtonPressed(MouseButton::Left)), Reaction::BeginDrag);
}

#[test]
fn other_buttons_and_events_are_not_consumed() {
    let mut c = Controller::new();
    for e in [
        InputEvent::ButtonPressed(MouseButton::Right),
        InputEvent::ButtonReleased(MouseButton::Middle),
        InputEvent::ButtonPressed(MouseButton::Other),
        InputEvent::PixelScroll,
        InputEvent::Other,
    ] {
        let r = c.input(e);
        assert_eq!(r, Reaction::Ignore);
        assert!(!r.consumed());
        assert!(!c.is_dragging());
    }
    c.input(InputEvent::ButtonPressed(MouseButton::Left));
    assert_eq!(c.input(InputEvent::ButtonReleased(MouseButton::Right)), Reaction::Ignore);
    assert!(c.is_dragging());
}

#[test]
fn line_scrolls_zoom_by_their_sign() {
    let mut c = Controller::new();
    assert_eq!(
        c.input(InputEvent::LineScroll(ScrollSign::Positive)),
        Reaction::Zoom(ZoomStep::In)
    );
    assert_eq!(
        c.input(InputEvent::LineScroll(ScrollSign::Negative)),
        Reaction::Zoom(ZoomStep::Out)
    );
    assert!(!c.is_dragging());
}

#[test]
fn horizontal_line_scroll_is_not_consumed() {
    let mut c = Controller::new();
    let r = c.input(InputEvent::LineScroll(ScrollSign::Zero));
    assert_eq!(r, Reaction::Ignore);
    assert!(!r.consumed());
    assert!(!c.is_dragging());
    c.input(InputEvent::ButtonPressed(MouseButton::Left));
    assert_eq!(c.input(InputEvent::LineScroll(ScrollSign::Zero)), Reaction::Ignore);
    assert!(c.is_dragging());
}

#[test]
fn scroll_signs_map_to_zoom_steps() {
    assert_eq!(zoom_step(ScrollSign::Positive), ZoomStep::In);
    assert_eq!(zoom_step(ScrollSign::Negative), ZoomStep::Out);
    assert_eq!(zoom_step(ScrollSign::Zero), ZoomStep::Keep);
}

#[test]
fn drag_is_kept_across_scrolls_and_moves() {
    let mut c = Controller::new();
    c.input(InputEvent::ButtonPressed(MouseButton::Left));
    for e in [
        InputEvent::CursorMoved,
        InputEvent::LineScroll(ScrollSign::Positive),
        InputEvent::PixelScroll,
        InputEvent::Other,
        InputEvent::ButtonPressed(MouseButton::Left),
    ] {
        assert_ne!(c.input(e), Reaction::BeginDrag);
        assert!(c.is_dragging());
    }
}
