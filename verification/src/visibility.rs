use vstd::prelude::*;

verus! {

/// The process-wide flag that records whether the main window is considered hidden.
pub struct WindowVisibility {
    hidden: bool,
}

impl WindowVisibility {
    /// The flag's value: `true` when the window is considered hidden.
    pub closed spec fn is_hidden(&self) -> bool {
        self.hidden
    }

    /// A fresh flag; the window starts out visible.
    pub fn new() -> (flag: WindowVisibility)
        ensures
            !flag.is_hidden(),
    {
        WindowVisibility { hidden: false }
    }

    /// Reads the flag.
    pub fn read(&self) -> (hidden: bool)
        ensures
            hidden == self.is_hidden(),
    {
        self.hidden
    }

    /// Flips the flag and returns its new value.
    pub fn toggle(&mut self) -> (hidden: bool)
        ensures
            final(self).is_hidden() == !old(self).is_hidden(),
            hidden == final(self).is_hidden(),
    {
        self.hidden = !self.hidden;
        self.hidden
    }
}

} // verus!
