use vstd::prelude::*;

verus! {

/// What the dispatcher and the status icon tell each other.
#[derive(Clone, Copy, Debug, PartialEq, Eq, Structural)]
pub enum TrayMessage {
    /// To the icon: the device is connected.
    Connected,
    /// To the icon: the device is gone.
    Disconnected,
    /// From the icon: the user asked to quit.
    Quit,
}

/// The two faces of the status icon.
#[derive(Clone, Copy, Debug, PartialEq, Eq, Structural)]
pub enum Icon {
    /// The device is connected.
    On,
    /// The device is not connected. The icon starts with this face.
    Off,
}

impl Icon {
    /// The name of the icon resource that shows this face.
    pub open spec fn resource_name(self) -> Seq<char> {
        match self {
            Icon::On => "op1nput-on"@,
            Icon::Off => "op1nput-off"@,
        }
    }

    /// The name of the icon resource that shows this face.
    pub fn resource(self) -> (name: &'static str)
        ensures
            name@ == self.resource_name(),
    {
        match self {
            Icon::On => "op1nput-on",
            Icon::Off => "op1nput-off",
        }
    }
}

/// The face that the icon takes when it is told `message`, if it changes.
pub open spec fn face_after(message: TrayMessage) -> Option<Icon> {
    match message {
        TrayMessage::Connected => Some(Icon::On),
        TrayMessage::Disconnected => Some(Icon::Off),
        TrayMessage::Quit => None,
    }
}

/// Decides how the icon takes `message`: with the face to show from now on,
/// or with `None` where the face stays as it is.
pub fn icon_for(message: TrayMessage) -> (face: Option<Icon>)
    ensures
        face == face_after(message),
        message == TrayMessage::Connected ==> face == Some(Icon::On),
        message == TrayMessage::Disconnected ==> face == Some(Icon::Off),
        message == TrayMessage::Quit ==> face is None,
{
    match message {
        TrayMessage::Connected => Some(Icon::On),
        TrayMessage::Disconnected => Some(Icon::Off),
        TrayMessage::Quit => None,
    }
}

} // verus!
