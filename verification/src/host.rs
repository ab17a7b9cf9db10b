use vstd::prelude::*;

verus! {

/// How the operating system treats the application as a whole.
#[derive(Clone, Copy, Debug, PartialEq, Eq, Structural)]
pub enum ActivationPolicy {
    /// The application has an icon and takes focus like any other.
    Regular,
    /// The application has no icon but still receives input.
    Accessory,
}

/// A notification sent to the user interface.
#[derive(Clone, Copy, Debug, PartialEq, Eq, Structural)]
pub enum Event {
    /// The window came back; the interface should reset and focus its input field.
    FocusTextInput,
    /// The visibility flag was flipped to the given value; the interface
    /// shows or hides the window itself.
    ToggleWindowVisibility(bool),
}

/// What an event carries besides its name.
#[derive(Clone, Copy, Debug, PartialEq, Eq, Structural)]
pub enum Payload {
    /// An object without members.
    Empty,
    /// A single boolean.
    Flag(bool),
}

impl Event {
    /// The event's name, as a sequence of characters.
    pub open spec fn name_text(&self) -> Seq<char> {
        match self {
            Event::FocusTextInput => "focus-text-input"@,
            Event::ToggleWindowVisibility(_) => "toggle-window-visibility"@,
        }
    }

    /// What goes out with the event.
    pub open spec fn spec_payload(&self) -> Payload {
        match self {
            Event::FocusTextInput => Payload::Empty,
            Event::ToggleWindowVisibility(hidden) => Payload::Flag(*hidden),
        }
    }

    /// The name under which the interface listens for the event.
    pub fn name(&self) -> (name: &'static str)
        ensures
            name@ == self.name_text(),
    {
        match self {
            Event::FocusTextInput => "focus-text-input",
            Event::ToggleWindowVisibility(_) => "toggle-window-visibility",
        }
    }

    /// What goes out with the event: nothing for `focus-text-input`, the
    /// flag's new value for `toggle-window-visibility`.
    #[verifier::when_used_as_spec(spec_payload)]
    pub fn payload(&self) -> (payload: Payload)
        ensures
            payload == self.spec_payload(),
    {
        match self {
            Event::FocusTextInput => Payload::Empty,
            Event::ToggleWindowVisibility(hidden) => Payload::Flag(*hidden),
        }
    }
}

/// One request to the host runtime. Each either succeeds or fails with a
/// message; none returns anything else.
#[derive(Clone, Copy, Debug, PartialEq, Eq, Structural)]
pub enum HostCall {
    /// Hide the main window.
    Hide,
    /// Show the main window.
    Show,
    /// Give the main window input focus.
    SetFocus,
    /// Send an event to the user interface.
    Emit(Event),
    /// Change the application's activation policy.
    SetActivationPolicy(ActivationPolicy),
    /// Keep the main window out of the taskbar or panel (`true`) or list it there (`false`).
    SetSkipTaskbar(bool),
    /// Keep the main window above all others, or stop doing so.
    SetAlwaysOnTop(bool),
    /// Resize the main window, in logical pixels.
    SetSize { width: u32, height: u32 },
    /// Move the main window's top-left corner, in logical pixels.
    SetPosition { x: i64, y: i64 },
    /// Attach the handler that receives the toggle shortcut's key events.
    AttachShortcutListener,
    /// Register the toggle shortcut with the operating system.
    RegisterShortcut,
}

} // verus!
