//! Input events as the control loop receives them, and the pointer event that
//! a frame hands to the widgets.

use crate::geometry::{Point2DI32, RectI32, Size2D};
use vstd::prelude::*;

verus! {

/// The keys that the control loop reacts to; every other key is `Other`.
#[derive(Clone, Copy, Debug, PartialEq, Eq, Structural)]
pub enum Keycode {
    Escape,
    W,
    A,
    S,
    D,
    Other,
}

/// One input event, in arrival order.
#[derive(Clone, Copy, Debug, PartialEq, Eq, Structural)]
pub enum Event {
    /// The user asked to close the window.
    Quit,
    /// The drawable surface changed; the payload is its new size.
    SizeChanged(Size2D),
    /// The primary pointer button went down at a window position.
    MouseButtonDown { x: i32, y: i32 },
    /// The pointer moved by a relative amount.
    MouseMotion { xrel: i32, yrel: i32 },
    KeyDown(Keycode),
    KeyUp(Keycode),
    /// Any event of a kind the loop does not handle.
    Other,
}

/// The pointer event that is still waiting for a widget to take it.
#[derive(Clone, Copy, Debug, PartialEq, Eq, Structural)]
pub enum UIEvent {
    Empty,
    MouseDown(Point2DI32),
}

impl UIEvent {
    pub fn is_none(&self) -> (none: bool)
        ensures
            none == (*self is Empty),
    {
        match *self {
            UIEvent::Empty => true,
            _ => false,
        }
    }

    /// Whether this is a pointer-down inside `rect`.
    pub open spec fn hits(self, rect: RectI32) -> bool {
        self matches UIEvent::MouseDown(point) && rect.contains(point)
    }

    /// Offers the event to a widget that occupies `rect`. A pointer-down inside
    /// the rectangle is taken: the event becomes `Empty` and the answer is
    /// `true`. Anything else is left as it is.
    pub fn handle_mouse_down_in_rect(&mut self, rect: RectI32) -> (taken: bool)
        ensures
            taken == old(self).hits(rect),
            *final(self) == if taken { UIEvent::Empty } else { *old(self) },
    {
        if let UIEvent::MouseDown(point) = *self {
            if rect.contains_point(point) {
                *self = UIEvent::Empty;
                return true;
            }
        }
        false
    }
}

} // verus!
