use vstd::prelude::*;

verus! {

/// A key, identified by the number that the caller's key table gives it.
#[derive(Clone, Copy, Debug, PartialEq, Eq, Structural)]
pub struct Key(pub u32);

/// A mouse button. `Unknown` carries the id of an extra button.
#[derive(Clone, Copy, Debug, PartialEq, Eq, Structural)]
pub enum Button {
    Left,
    Middle,
    Right,
    Forward,
    Backward,
    Unknown(u8),
}

/// One abstract input event.
#[derive(Clone, Copy, Debug, PartialEq, Eq, Structural)]
pub enum EventType {
    KeyPress(Key),
    KeyRelease(Key),
    ButtonPress(Button),
    ButtonRelease(Button),
    /// Wheel notches on each axis.
    Wheel { delta_x: i64, delta_y: i64 },
    /// A pointer position in virtual-desktop pixels.
    MouseMove { x: i32, y: i32 },
}

/// The one failure that simulating an event reports.
#[derive(Clone, Copy, Debug, PartialEq, Eq, Structural)]
pub struct SimulateError;

} // verus!
