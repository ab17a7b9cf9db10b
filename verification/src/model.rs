use crate::host::{ActivationPolicy, Event, HostCall};
use crate::procedure::Effect;
use vstd::prelude::*;

verus! {

/// The two states of the main window that an onlooker can tell apart.
#[derive(Clone, Copy, Debug, PartialEq, Eq, Structural)]
pub enum WindowState {
    Shown,
    Hidden,
}

impl WindowState {
    /// The other state.
    pub open spec fn toggled(self) -> WindowState {
        match self {
            WindowState::Shown => WindowState::Hidden,
            WindowState::Hidden => WindowState::Shown,
        }
    }
}

/// What an onlooker can tell of the host: the main window, the application's
/// standing with the operating system, the shortcut, and the events that the
/// user interface has been sent. It exists in contracts only, to say what
/// the library's procedures bring about when the host accepts their calls.
pub struct HostModel {
    pub visible: bool,
    pub focused: bool,
    pub skip_taskbar: bool,
    pub always_on_top: bool,
    pub activation: ActivationPolicy,
    pub width: int,
    pub height: int,
    pub x: int,
    pub y: int,
    pub listening: bool,
    pub shortcut_live: bool,
    pub events: Seq<Event>,
}

impl HostModel {
    /// The window's state.
    pub open spec fn state(self) -> WindowState {
        if self.visible {
            WindowState::Shown
        } else {
            WindowState::Hidden
        }
    }

    /// The host once it has accepted `call`.
    pub open spec fn after_call(self, call: HostCall) -> HostModel {
        match call {
            HostCall::Hide => HostModel { visible: false, ..self },
            HostCall::Show => HostModel { visible: true, ..self },
            HostCall::SetFocus => HostModel { focused: true, ..self },
            HostCall::Emit(event) => HostModel { events: self.events.push(event), ..self },
            HostCall::SetActivationPolicy(policy) => HostModel { activation: policy, ..self },
            HostCall::SetSkipTaskbar(skip) => HostModel { skip_taskbar: skip, ..self },
            HostCall::SetAlwaysOnTop(enabled) => HostModel { always_on_top: enabled, ..self },
            HostCall::SetSize { width, height } => HostModel {
                width: width as int,
                height: height as int,
                ..self
            },
            HostCall::SetPosition { x, y } => HostModel { x: x as int, y: y as int, ..self },
            HostCall::AttachShortcutListener => HostModel { listening: true, ..self },
            HostCall::RegisterShortcut => HostModel { shortcut_live: true, ..self },
        }
    }

    /// A log line changes nothing that an onlooker of the host can tell.
    pub open spec fn after_effect(self, effect: Effect) -> HostModel {
        match effect {
            Effect::Call(call) => self.after_call(call),
            Effect::Log(_) => self,
        }
    }

    /// The host once it has accepted every call among `effects`, in order.
    pub open spec fn after(self, effects: Seq<Effect>) -> HostModel
        decreases effects.len(),
    {
        if effects.len() == 0 {
            self
        } else {
            self.after_effect(effects[0]).after(effects.drop_first())
        }
    }
}

} // verus!
