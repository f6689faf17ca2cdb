use vstd::prelude::*;

verus! {

/// Snapshot of the protocol extensions the server advertised when the
/// registry was first enumerated. Read-only afterwards: hotplugged seats and
/// outputs arrive as events, not by re-querying this list.
#[derive(Clone, Copy, PartialEq, Eq, Structural, Debug)]
pub struct Globals {
    /// Surface compositing is advertised.
    pub compositor: bool,
    /// The decorated-window shell is advertised.
    pub window_shell: bool,
    /// The overlay-layer shell is advertised.
    pub layer_shell: bool,
    /// An input seat is advertised.
    pub seat: bool,
    /// An output is advertised.
    pub output: bool,
}

/// A required protocol extension the server does not advertise. Fatal at
/// startup: the client cannot proceed without compositing or windowing.
#[derive(Clone, Copy, PartialEq, Eq, Structural, Debug)]
pub enum BindError {
    CompositorMissing,
    WindowShellMissing,
    LayerShellMissing,
}

/// The extensions a successful bind holds. Compositing and both shells are
/// always present here — their absence fails the bind — while seat and
/// output are optional and may also arrive later by hotplug.
#[derive(Clone, Copy, PartialEq, Eq, Structural, Debug)]
pub struct BoundCapabilities {
    /// A seat was advertised at startup.
    pub seat: bool,
    /// An output was advertised at startup.
    pub output: bool,
}

/// Binds the protocol extensions the client needs, in the order they are
/// relied on: compositing first, then the decorated-window shell, then the
/// overlay-layer shell. The first required extension found missing is the
/// reported error; seat and output never fail the bind.
pub fn bind(globals: Globals) -> (r: Result<BoundCapabilities, BindError>)
    ensures
        r is Ok <==> globals.compositor && globals.window_shell && globals.layer_shell,
        !globals.compositor ==> r == Err::<BoundCapabilities, BindError>(
            BindError::CompositorMissing,
        ),
        globals.compositor && !globals.window_shell ==> r == Err::<
            BoundCapabilities,
            BindError,
        >(BindError::WindowShellMissing),
        globals.compositor && globals.window_shell && !globals.layer_shell ==> r == Err::<
            BoundCapabilities,
            BindError,
        >(BindError::LayerShellMissing),
        r matches Ok(c) ==> c.seat == globals.seat && c.output == globals.output,
{
    if !globals.compositor {
        return Err(BindError::CompositorMissing);
    }
    if !globals.window_shell {
        return Err(BindError::WindowShellMissing);
    }
    if !globals.layer_shell {
        return Err(BindError::LayerShellMissing);
    }
    Ok(BoundCapabilities { seat: globals.seat, output: globals.output })
}

/// An input capability a seat can offer.
#[derive(Clone, Copy, PartialEq, Eq, Structural, Debug)]
pub enum SeatCapability {
    Keyboard,
    Pointer,
}

/// What the caller must do against the live seat after a capability event:
/// obtain the named device from the seat, or release the held one.
#[derive(Clone, Copy, PartialEq, Eq, Structural, Debug)]
pub enum SeatAction {
    AcquireKeyboard,
    ReleaseKeyboard,
    AcquirePointer,
    ReleasePointer,
}

/// Which input devices the client currently holds. Devices are acquired at
/// most once: a repeated capability announcement is ignored.
#[derive(Clone, Copy, PartialEq, Eq, Structural, Debug)]
pub struct SeatDevices {
    pub keyboard: bool,
    pub pointer: bool,
}

impl SeatDevices {
    /// No devices are held before the first capability event.
    pub fn new() -> (s: SeatDevices)
        ensures
            !s.keyboard,
            !s.pointer,
    {
        SeatDevices { keyboard: false, pointer: false }
    }

    /// A capability was announced: acquire the device if it is not already
    /// held, otherwise do nothing.
    pub fn on_new_capability(&mut self, cap: SeatCapability) -> (a: Option<SeatAction>)
        ensures
            cap == SeatCapability::Keyboard ==> final(self).pointer == old(self).pointer
                && final(self).keyboard,
            cap == SeatCapability::Keyboard && !old(self).keyboard ==> a == Some(
                SeatAction::AcquireKeyboard,
            ),
            cap == SeatCapability::Pointer ==> final(self).keyboard == old(self).keyboard
                && final(self).pointer,
            cap == SeatCapability::Pointer && !old(self).pointer ==> a == Some(
                SeatAction::AcquirePointer,
            ),
            (cap == SeatCapability::Keyboard && old(self).keyboard) || (cap
                == SeatCapability::Pointer && old(self).pointer) ==> a is None && *final(self)
                == *old(self),
    {
        match cap {
            SeatCapability::Keyboard => {
                if !self.keyboard {
                    self.keyboard = true;
                    Some(SeatAction::AcquireKeyboard)
                } else {
                    None
                }
            }
            SeatCapability::Pointer => {
                if !self.pointer {
                    self.pointer = true;
                    Some(SeatAction::AcquirePointer)
                } else {
                    None
                }
            }
        }
    }

    /// A capability was withdrawn: release the device if it is held,
    /// otherwise do nothing.
    pub fn on_remove_capability(&mut self, cap: SeatCapability) -> (a: Option<SeatAction>)
        ensures
            cap == SeatCapability::Keyboard ==> final(self).pointer == old(self).pointer
                && !final(self).keyboard,
            cap == SeatCapability::Keyboard && old(self).keyboard ==> a == Some(
                SeatAction::ReleaseKeyboard,
            ),
            cap == SeatCapability::Pointer ==> final(self).keyboard == old(self).keyboard
                && !final(self).pointer,
            cap == SeatCapability::Pointer && old(self).pointer ==> a == Some(
                SeatAction::ReleasePointer,
            ),
            (cap == SeatCapability::Keyboard && !old(self).keyboard) || (cap
                == SeatCapability::Pointer && !old(self).pointer) ==> a is None && *final(self)
                == *old(self),
    {
        match cap {
            SeatCapability::Keyboard => {
                if self.keyboard {
                    self.keyboard = false;
                    Some(SeatAction::ReleaseKeyboard)
                } else {
                    None
                }
            }
            SeatCapability::Pointer => {
                if self.pointer {
                    self.pointer = false;
                    Some(SeatAction::ReleasePointer)
                } else {
                    None
                }
            }
        }
    }
}

} // verus!
