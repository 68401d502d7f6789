//! The input controller: a state machine on the left mouse button that turns
//! window events into actions on the camera.
use vstd::prelude::*;

verus! {

/// A mouse button, as the window system names it.
#[derive(Clone, Copy, Debug, PartialEq, Eq, Structural)]
pub enum MouseButton {
    Left,
    Right,
    Middle,
    Other,
}

/// The sign of the vertical delta of a scroll given in lines.
#[derive(Clone, Copy, Debug, PartialEq, Eq, Structural)]
pub enum ScrollSign {
    Positive,
    Negative,
    Zero,
}

/// A window event, with what the controller reads of it. Cursor coordinates
/// and scroll amounts stay with the caller.
#[derive(Clone, Copy, Debug, PartialEq, Eq, Structural)]
pub enum InputEvent {
    CursorMoved,
    ButtonPressed(MouseButton),
    ButtonReleased(MouseButton),
    /// A wheel scroll given in lines, with the sign of its vertical delta;
    /// a zero sign is a purely horizontal scroll, which the controller ignores.
    LineScroll(ScrollSign),
    /// A scroll given in pixels (touchpads).
    PixelScroll,
    /// Any other window event.
    Other,
}

/// One zoom step about the viewport centre.
#[derive(Clone, Copy, Debug, PartialEq, Eq, Structural)]
pub enum ZoomStep {
    /// The zoom factor doubles.
    In,
    /// The zoom factor halves.
    Out,
    /// The zoom factor stays; limits are recomputed and the camera is marked.
    Keep,
}

/// The zoom step for a scroll whose vertical delta has sign `s`.
pub open spec fn step_for(s: ScrollSign) -> ZoomStep {
    match s {
        ScrollSign::Positive => ZoomStep::In,
        ScrollSign::Negative => ZoomStep::Out,
        ScrollSign::Zero => ZoomStep::Keep,
    }
}

/// What the caller does with the camera after an event.
#[derive(Clone, Copy, Debug, PartialEq, Eq, Structural)]
pub enum Reaction {
    /// The event is not the controller's: the caller may handle it.
    Ignore,
    /// Store the new cursor position.
    TrackCursor,
    /// A drag starts: anchor the pixel under the cursor and the point of the
    /// plane that it shows.
    BeginDrag,
    /// Consumed with no change: the button was already down.
    KeepDrag,
    /// The drag ends; the camera stays as it is.
    EndDrag,
    /// Zoom about the viewport centre.
    Zoom(ZoomStep),
}

impl Reaction {
    /// Whether the controller consumed the event.
    pub fn consumed(&self) -> (r: bool)
        ensures
            r == !(self is Ignore),
    {
        match self {
            Reaction::Ignore => false,
            _ => true,
        }
    }
}

/// The reaction to `e` while the left button is down (`down`) or up.
pub open spec fn reaction_to(down: bool, e: InputEvent) -> Reaction {
    match e {
        InputEvent::CursorMoved => Reaction::TrackCursor,
        InputEvent::ButtonPressed(MouseButton::Left) => if down {
            Reaction::KeepDrag
        } else {
            Reaction::BeginDrag
        },
        InputEvent::ButtonReleased(MouseButton::Left) => Reaction::EndDrag,
        InputEvent::LineScroll(ScrollSign::Zero) => Reaction::Ignore,
        InputEvent::LineScroll(s) => Reaction::Zoom(step_for(s)),
        _ => Reaction::Ignore,
    }
}

/// Whether the left button is down after `e`, given that it was (`down`) or
/// was not before.
pub open spec fn down_after(down: bool, e: InputEvent) -> bool {
    match e {
        InputEvent::ButtonPressed(MouseButton::Left) => true,
        InputEvent::ButtonReleased(MouseButton::Left) => false,
        _ => down,
    }
}

/// The button state of the pointer: up, or down with a drag in progress.
#[derive(Debug)]
pub struct Controller {
    left_down: bool,
}

impl View for Controller {
    /// Whether a drag is in progress.
    type V = bool;

    closed spec fn view(&self) -> bool {
        self.left_down
    }
}

impl Controller {
    /// A controller with the button up.
    pub fn new() -> (r: Controller)
        ensures
            !r@,
    {
        Controller { left_down: false }
    }

    /// Whether a drag is in progress; while it is, every update tick moves
    /// the origin so that the anchored point stays under the cursor.
    pub fn is_dragging(&self) -> (r: bool)
        ensures
            r == self@,
    {
        self.left_down
    }

    /// Interprets one window event.
    pub fn input(&mut self, e: InputEvent) -> (r: Reaction)
        ensures
            r == reaction_to(old(self)@, e),
            final(self)@ == down_after(old(self)@, e),
    {
        match e {
            InputEvent::CursorMoved => Reaction::TrackCursor,
            InputEvent::ButtonPressed(MouseButton::Left) => {
                if self.left_down {
                    Reaction::KeepDrag
                } else {
                    self.left_down = true;
                    Reaction::BeginDrag
                }
            },
            InputEvent::ButtonReleased(MouseButton::Left) => {
                self.left_down = false;
                Reaction::EndDrag
            },
            InputEvent::LineScroll(ScrollSign::Zero) => Reaction::Ignore,
            InputEvent::LineScroll(s) => Reaction::Zoom(zoom_step(s)),
            _ => Reaction::Ignore,
        }
    }
}

/// The zoom step for a line scroll whose vertical delta has sign `s`: in for
/// a positive delta, out for a negative one, none for zero.
pub fn zoom_step(s: ScrollSign) -> (r: ZoomStep)
    ensures
        r == step_for(s),
{
    match s {
        ScrollSign::Positive => ZoomStep::In,
        ScrollSign::Negative => ZoomStep::Out,
        ScrollSign::Zero => ZoomStep::Keep,
    }
}

/// A scroll up followed by a scroll down, or the reverse, asks for one step
/// in and one step out, whether or not a drag is in progress, and leaves the
/// drag as it was; a horizontal scroll is left to the caller.
pub proof fn lemma_zoom_steps_cancel(down: bool)
    ensures
        reaction_to(down, InputEvent::LineScroll(ScrollSign::Positive)) == Reaction::Zoom(
            ZoomStep::In,
        ),
        reaction_to(down, InputEvent::LineScroll(ScrollSign::Negative)) == Reaction::Zoom(
            ZoomStep::Out,
        ),
        reaction_to(down, InputEvent::LineScroll(ScrollSign::Zero)) == Reaction::Ignore,
        down_after(down, InputEvent::LineScroll(ScrollSign::Positive)) == down,
        down_after(down, InputEvent::LineScroll(ScrollSign::Negative)) == down,
{
}

/// While a drag is in progress, no event anchors it anew: the anchor taken
/// when the button went down stays until the button goes up, and only the
/// release of the left button ends the drag.
pub proof fn lemma_anchor_kept_during_drag(e: InputEvent)
    ensures
        reaction_to(true, e) != Reaction::BeginDrag,
        down_after(true, e) == !(e == InputEvent::ButtonReleased(MouseButton::Left)),
        reaction_to(false, e) == Reaction::BeginDrag <==> e == InputEvent::ButtonPressed(
            MouseButton::Left,
        ),
{
}

} // verus!
