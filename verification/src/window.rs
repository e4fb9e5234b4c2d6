//! What a render loop does with the events of its window.

use vstd::prelude::*;

verus! {

/// A key, as far as the render loop tells keys apart.
#[derive(Clone, Copy, Debug, PartialEq, Eq, Structural)]
pub enum Key {
    Escape,
    Other,
}

/// What happened to a key.
#[derive(Clone, Copy, Debug, PartialEq, Eq, Structural)]
pub enum Action {
    Release,
    Press,
    Repeat,
}

/// An event of the window, as far as the render loop tells events apart.
#[derive(Clone, Copy, Debug, PartialEq, Eq, Structural)]
pub enum WindowEvent {
    Key(Key, Action),
    Other,
}

/// The one event that ends a render loop: the escape key going down.
pub open spec fn is_close_request(event: WindowEvent) -> bool {
    event == WindowEvent::Key(Key::Escape, Action::Press)
}

/// Decides whether the window is to close on `event`. Holding the escape key
/// down or letting it go does not close the window, and no other key or event
/// does.
pub fn closes_window(event: WindowEvent) -> (close: bool)
    ensures
        close == is_close_request(event),
{
    match event {
        WindowEvent::Key(Key::Escape, Action::Press) => true,
        _ => false,
    }
}

} // verus!
