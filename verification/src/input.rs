//! Event kinds exchanged with the platform input layer, with their raw codes.
use vstd::prelude::*;

verus! {

/// The kind of multitouch device that reported a touch frame.
#[derive(Clone, Copy, Debug, PartialEq, Eq, Structural)]
pub enum TouchDeviceKind {
    Unknown,
    Mouse,
    Trackpad,
}

impl TouchDeviceKind {
    /// The raw code that the platform layer uses for this kind.
    pub open spec fn raw_code(self) -> u32 {
        match self {
            TouchDeviceKind::Unknown => 0,
            TouchDeviceKind::Mouse => 1,
            TouchDeviceKind::Trackpad => 2,
        }
    }

    /// Decodes a raw device-kind code; unknown codes give `None`.
    pub fn from_raw(raw: u32) -> (r: Option<Self>)
        ensures
            r is Some <==> raw <= 2,
            r matches Some(kind) ==> kind.raw_code() == raw,
            forall|kind: Self| kind.raw_code() == raw ==> r == Some(kind),
    {
        match raw {
            0 => Some(TouchDeviceKind::Unknown),
            1 => Some(TouchDeviceKind::Mouse),
            2 => Some(TouchDeviceKind::Trackpad),
            _ => None,
        }
    }
}

impl Default for TouchDeviceKind {
    fn default() -> (r: Self)
        ensures
            r == TouchDeviceKind::Unknown,
    {
        TouchDeviceKind::Unknown
    }
}

/// A physical mouse-button transition seen by the event tap.
#[derive(Clone, Copy, Debug, PartialEq, Eq, Structural)]
pub enum MouseEventKind {
    LeftDown,
    LeftUp,
    RightDown,
    RightUp,
}

impl MouseEventKind {
    /// The raw code that the platform layer uses for this kind.
    pub open spec fn raw_code(self) -> u32 {
        match self {
            MouseEventKind::LeftDown => 1,
            MouseEventKind::LeftUp => 2,
            MouseEventKind::RightDown => 3,
            MouseEventKind::RightUp => 4,
        }
    }

    /// `true` for the two button-press kinds.
    pub open spec fn is_down(self) -> bool {
        self is LeftDown || self is RightDown
    }

    /// Decodes a raw mouse-event code; unknown codes give `None`.
    pub fn from_raw(raw: u32) -> (r: Option<Self>)
        ensures
            r is Some <==> 1 <= raw <= 4,
            r matches Some(kind) ==> kind.raw_code() == raw,
            forall|kind: Self| kind.raw_code() == raw ==> r == Some(kind),
    {
        match raw {
            1 => Some(MouseEventKind::LeftDown),
            2 => Some(MouseEventKind::LeftUp),
            3 => Some(MouseEventKind::RightDown),
            4 => Some(MouseEventKind::RightUp),
            _ => None,
        }
    }
}

/// What the event tap should do with a physical mouse-button event.
#[derive(Clone, Copy, Debug, PartialEq, Eq, Structural)]
pub enum MouseAction {
    /// Let the event through unchanged.
    Pass,
    /// Replace the press with a middle-button press.
    RewriteDown,
    /// Replace the release with a middle-button release.
    RewriteUp,
}

impl MouseAction {
    /// The raw code that the platform layer expects for this action.
    pub open spec fn raw_code(self) -> u32 {
        match self {
            MouseAction::Pass => 0,
            MouseAction::RewriteDown => 1,
            MouseAction::RewriteUp => 2,
        }
    }

    /// Encodes the action as its raw code.
    pub fn as_raw(self) -> (r: u32)
        ensures
            r == self.raw_code(),
    {
        match self {
            MouseAction::Pass => 0,
            MouseAction::RewriteDown => 1,
            MouseAction::RewriteUp => 2,
        }
    }
}

/// A mouse button that the application can synthesise clicks of.
#[derive(Clone, Copy, Debug, PartialEq, Eq, Structural)]
pub enum MouseButton {
    Middle,
}

/// A system notification that makes the listeners restart.
#[derive(Clone, Copy, Debug, PartialEq, Eq, Structural)]
pub enum SystemEventKind {
    DeviceAdded,
    Wake,
    DisplayReconfigured,
}

impl SystemEventKind {
    /// The raw code that the platform layer uses for this kind.
    pub open spec fn raw_code(self) -> u32 {
        match self {
            SystemEventKind::DeviceAdded => 1,
            SystemEventKind::Wake => 2,
            SystemEventKind::DisplayReconfigured => 3,
        }
    }

    /// Decodes a raw system-event code; unknown codes give `None`.
    pub fn from_raw(raw: u32) -> (r: Option<Self>)
        ensures
            r is Some <==> 1 <= raw <= 3,
            r matches Some(kind) ==> kind.raw_code() == raw,
            forall|kind: Self| kind.raw_code() == raw ==> r == Some(kind),
    {
        match raw {
            1 => Some(SystemEventKind::DeviceAdded),
            2 => Some(SystemEventKind::Wake),
            3 => Some(SystemEventKind::DisplayReconfigured),
            _ => None,
        }
    }
}

impl SystemEventKind {
    /// The raw code that the input runtime uses for this kind; it reports
    /// no wake events (those come from the workspace monitor).
    pub open spec fn input_runtime_code(self) -> Option<u32> {
        match self {
            SystemEventKind::DeviceAdded => Some(1),
            SystemEventKind::Wake => None,
            SystemEventKind::DisplayReconfigured => Some(2),
        }
    }

    /// Decodes a raw system-event code of the input runtime; unknown codes
    /// give `None`.
    pub fn from_input_runtime_raw(raw: u32) -> (r: Option<Self>)
        ensures
            r is Some <==> 1 <= raw <= 2,
            r matches Some(kind) ==> kind.input_runtime_code() == Some(raw),
            forall|kind: Self| kind.input_runtime_code() == Some(raw) ==> r == Some(kind),
    {
        match raw {
            1 => Some(SystemEventKind::DeviceAdded),
            2 => Some(SystemEventKind::DisplayReconfigured),
            _ => None,
        }
    }
}

/// A process signal that the daemon reacts to.
#[derive(Clone, Copy, Debug, PartialEq, Eq, Structural)]
pub enum SignalKind {
    /// `SIGHUP`: reload the configuration and the listeners.
    Reload,
}

impl SignalKind {
    /// The raw code that the platform layer uses for this kind.
    pub open spec fn raw_code(self) -> u32 {
        match self {
            SignalKind::Reload => 1,
        }
    }

    /// Decodes a raw signal code; unknown codes give `None`.
    pub fn from_raw(raw: u32) -> (r: Option<Self>)
        ensures
            r is Some <==> raw == 1,
            r matches Some(kind) ==> kind.raw_code() == raw,
            forall|kind: Self| kind.raw_code() == raw ==> r == Some(kind),
    {
        match raw {
            1 => Some(SignalKind::Reload),
            _ => None,
        }
    }
}

} // verus!
