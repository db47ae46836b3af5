//! Events that a widget can be asked to report.
use vstd::prelude::*;

verus! {

/// What happens to a widget. Every widget receives these, whatever its kind.
#[derive(Debug, Copy, Clone, Ord, PartialOrd, Eq, PartialEq, Structural)]
pub enum Event {
    /// The object has been pressed.
    Pressed,
    /// The object is being pressed (sent continuously while pressing).
    Pressing,
    /// The input device is still being pressed but is no longer on the object.
    PressLost,
    /// Released before the long press time. Not sent if dragged.
    ShortClicked,
    /// Sent on release if not dragged, whatever the length of the press.
    Clicked,
    /// Pressed for the long press time. Not sent if dragged.
    LongPressed,
    /// Sent again and again after the long press time. Not sent if dragged.
    LongPressedRepeat,
    /// The object has been released, even if it was dragged.
    Released,
    /// An underlying value has changed, such as the position of a slider.
    ValueChanged,
    /// The main drawing phase.
    DrawMain,
    /// The main drawing phase begins.
    DrawMainBegin,
    /// The main drawing phase ends.
    DrawMainEnd,
    /// The drawing phase after the children are drawn.
    DrawPost,
    /// The drawing phase after the children begins.
    DrawPostBegin,
    /// The drawing phase after the children ends.
    DrawPostEnd,
    /// The object has received the focus.
    Focused,
}

impl Event {
    /// The event under which a callback for `self` is registered. The
    /// graphics library is not yet asked for focus events: a callback for
    /// one is registered for clicks. Every other event stands for itself.
    pub open spec fn registration(self) -> Event {
        match self {
            Event::Focused => Event::Clicked,
            other => other,
        }
    }

    /// The event under which a callback for `self` is registered.
    pub fn registered_as(self) -> (r: Event)
        ensures
            r == self.registration(),
            !(r is Focused),
    {
        match self {
            Event::Focused => Event::Clicked,
            other => other,
        }
    }
}

} // verus!
