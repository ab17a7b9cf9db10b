use vstd::prelude::*;

verus! {

/// The family of desktop the build targets, named after the place where it
/// shows an application's icon.
#[derive(Clone, Copy, Debug, PartialEq, Eq, Structural)]
pub enum Platform {
    /// Shows running applications in a dock; icon presence follows the
    /// application's activation policy.
    Dock,
    /// Shows windows in a taskbar. The host cannot be trusted to report
    /// whether a window is visible there.
    Taskbar,
    /// Shows windows in a panel or tray.
    Panel,
}

impl Platform {
    /// Whether the host's own report of the window's visibility is the source
    /// of truth on this platform. Where it is not, the visibility flag stands in.
    pub open spec fn has_live_visibility(self) -> bool {
        self != Platform::Taskbar
    }

    /// The text of the key combination that toggles the window.
    pub open spec fn default_shortcut_text(self) -> Seq<char> {
        match self {
            Platform::Dock => "cmd+\\"@,
            Platform::Taskbar => "ctrl+\\"@,
            Platform::Panel => "ctrl+\\"@,
        }
    }

    /// Whether to ask the host if the window is visible before toggling it.
    pub fn reports_live_visibility(&self) -> (live: bool)
        ensures
            live == self.has_live_visibility(),
    {
        match self {
            Platform::Taskbar => false,
            _ => true,
        }
    }

    /// The text of the default toggle shortcut: the backslash key with the
    /// command key where there is a dock, with the control key elsewhere.
    pub fn default_toggle_shortcut(&self) -> (text: &'static str)
        ensures
            text@ == self.default_shortcut_text(),
    {
        match self {
            Platform::Dock => "cmd+\\",
            _ => "ctrl+\\",
        }
    }
}

} // verus!
