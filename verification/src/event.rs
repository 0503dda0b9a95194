//! What the input source hands to the editor.

use vstd::prelude::*;

verus! {

/// A physical key, as far as the editor tells keys apart.
#[derive(Debug, Clone, Copy, PartialEq, Eq, Structural)]
pub enum Key {
    /// The escape key, which has no printable form.
    Escape,
    /// Any other key.
    Other,
}

/// One input event.
#[derive(Debug, Clone)]
pub enum InputEvent {
    /// The application is asked to quit.
    Quit,
    /// A key went down.
    KeyDown(Key),
    /// Composed, ready-to-use text was entered.
    TextInput(String),
}

/// An input event as mathematics: entered text as a character sequence.
pub enum EventView {
    /// The application is asked to quit.
    Quit,
    /// A key went down.
    KeyDown(Key),
    /// Text was entered.
    TextInput(Seq<char>),
}

impl View for InputEvent {
    type V = EventView;

    open spec fn view(&self) -> EventView {
        match self {
            InputEvent::Quit => EventView::Quit,
            InputEvent::KeyDown(key) => EventView::KeyDown(*key),
            InputEvent::TextInput(text) => EventView::TextInput(text@),
        }
    }
}

} // verus!
