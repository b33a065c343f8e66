//! Window interaction events: the mapping from a host window event to the
//! action a bound handler sees. Event delivery itself is host glue; the
//! mapping is the part with a contract.

use vstd::prelude::*;

use crate::geometry::Vec2D;

verus! {

/// What the host reports about its window, reduced to the values the
/// mapping reads.
#[derive(Clone, Copy, Debug, PartialEq, Eq, Structural)]
pub enum HostWindowEvent {
    /// The window was resized; the new size travels separately through the
    /// resize notifier.
    Resized,
    /// The window moved to this position.
    Moved(Vec2D),
    /// Anything else; handlers never see it.
    Other,
}

/// A window action delivered to bound handlers.
#[derive(Clone, Copy, Debug, PartialEq, Eq, Structural)]
pub enum Action {
    Resize,
    Move(Vec2D),
}

/// A window event as handlers receive it.
#[derive(Clone, Copy, Debug, PartialEq, Eq, Structural)]
pub struct Event {
    pub action: Action,
}

/// The action a host window event triggers: resizes and moves are
/// delivered, everything else is dropped.
pub fn window_action(event: HostWindowEvent) -> (r: Option<Action>)
    ensures
        event is Resized ==> r == Some(Action::Resize),
        event matches HostWindowEvent::Moved(p) ==> r == Some(Action::Move(p)),
        event is Other ==> r is None,
{
    match event {
        HostWindowEvent::Resized => Some(Action::Resize),
        HostWindowEvent::Moved(p) => Some(Action::Move(p)),
        HostWindowEvent::Other => None,
    }
}

} // verus!
