use crate::event::{Button, SimulateError};
use vstd::prelude::*;

verus! {

/// Mouse record flags, as the OS defines them.
pub const MOUSEEVENTF_MOVE: u32 = 0x0001;
pub const MOUSEEVENTF_LEFTDOWN: u32 = 0x0002;
pub const MOUSEEVENTF_LEFTUP: u32 = 0x0004;
pub const MOUSEEVENTF_RIGHTDOWN: u32 = 0x0008;
pub const MOUSEEVENTF_RIGHTUP: u32 = 0x0010;
pub const MOUSEEVENTF_MIDDLEDOWN: u32 = 0x0020;
pub const MOUSEEVENTF_MIDDLEUP: u32 = 0x0040;
pub const MOUSEEVENTF_XDOWN: u32 = 0x0080;
pub const MOUSEEVENTF_XUP: u32 = 0x0100;
pub const MOUSEEVENTF_WHEEL: u32 = 0x0800;
pub const MOUSEEVENTF_HWHEEL: u32 = 0x1000;
pub const MOUSEEVENTF_VIRTUALDESK: u32 = 0x4000;
pub const MOUSEEVENTF_ABSOLUTE: u32 = 0x8000;

/// Keyboard record flag that marks a key release.
pub const KEYEVENTF_KEYUP: u32 = 0x0002;

/// Device units of one wheel notch.
pub const WHEEL_DELTA: u32 = 120;

/// Extra-button ids.
pub const MOUSE_FORWARD: u16 = 1;
pub const MOUSE_BACKWARD: u16 = 2;

/// The full scale of absolute pointer coordinates.
pub const ABSOLUTE_SCALE: i64 = 65535;

/// One mouse record: a button, a wheel turn or an absolute move.
/// Time and extra information are always zero.
#[derive(Clone, Copy, Debug, PartialEq, Eq, Structural)]
pub struct MouseInput {
    pub flags: u32,
    pub data: i32,
    pub dx: i32,
    pub dy: i32,
}

/// One keyboard record. Time and extra information are always zero.
#[derive(Clone, Copy, Debug, PartialEq, Eq, Structural)]
pub struct KeyboardInput {
    pub flags: u32,
    pub vk: u16,
    pub scan: u16,
}

/// One record for the OS injection call.
#[derive(Clone, Copy, Debug, PartialEq, Eq, Structural)]
pub enum Input {
    Mouse(MouseInput),
    Keyboard(KeyboardInput),
}

/// Whether a keyboard record presses or releases its key.
#[derive(Clone, Copy, Debug, PartialEq, Eq, Structural)]
pub enum KeyDirection {
    Down,
    Up,
}

impl KeyDirection {
    pub open spec fn spec_flags(self) -> u32 {
        match self {
            KeyDirection::Down => 0,
            KeyDirection::Up => KEYEVENTF_KEYUP,
        }
    }

    /// The keyboard record flags: zero for a press, the key-up bit for a release.
    pub fn flags(&self) -> (r: u32)
        ensures
            r == self.spec_flags(),
    {
        match self {
            KeyDirection::Down => 0,
            KeyDirection::Up => KEYEVENTF_KEYUP,
        }
    }
}

/// The outcome of one injection call that asked for one record: success
/// exactly when the OS reports that it took one.
pub open spec fn outcome_of(count: u32) -> Result<(), SimulateError> {
    if count == 1 {
        Ok(())
    } else {
        Err(SimulateError)
    }
}

pub fn accepted(count: u32) -> (r: Result<(), SimulateError>)
    ensures
        r == outcome_of(count),
{
    if count != 1 {
        Err(SimulateError)
    } else {
        Ok(())
    }
}

pub open spec fn button_flags(b: Button, press: bool) -> u32 {
    match b {
        Button::Left => if press { MOUSEEVENTF_LEFTDOWN } else { MOUSEEVENTF_LEFTUP },
        Button::Middle => if press { MOUSEEVENTF_MIDDLEDOWN } else { MOUSEEVENTF_MIDDLEUP },
        Button::Right => if press { MOUSEEVENTF_RIGHTDOWN } else { MOUSEEVENTF_RIGHTUP },
        _ => if press { MOUSEEVENTF_XDOWN } else { MOUSEEVENTF_XUP },
    }
}

/// The auxiliary value of a button record: the extra-button id, else zero.
pub open spec fn button_id(b: Button) -> i32 {
    match b {
        Button::Forward => MOUSE_FORWARD as i32,
        Button::Backward => MOUSE_BACKWARD as i32,
        Button::Unknown(code) => code as i32,
        _ => 0,
    }
}

pub open spec fn button_record(b: Button, press: bool) -> MouseInput {
    MouseInput { flags: button_flags(b, press), data: button_id(b), dx: 0, dy: 0 }
}

/// The record that presses (`press`) or releases a mouse button.
pub fn button_input(b: Button, press: bool) -> (r: MouseInput)
    ensures
        r == button_record(b, press),
{
    let (down, up, data): (u32, u32, i32) = match b {
        Button::Left => (MOUSEEVENTF_LEFTDOWN, MOUSEEVENTF_LEFTUP, 0),
        Button::Middle => (MOUSEEVENTF_MIDDLEDOWN, MOUSEEVENTF_MIDDLEUP, 0),
        Button::Right => (MOUSEEVENTF_RIGHTDOWN, MOUSEEVENTF_RIGHTUP, 0),
        Button::Forward => (MOUSEEVENTF_XDOWN, MOUSEEVENTF_XUP, MOUSE_FORWARD as i32),
        Button::Backward => (MOUSEEVENTF_XDOWN, MOUSEEVENTF_XUP, MOUSE_BACKWARD as i32),
        Button::Unknown(code) => (MOUSEEVENTF_XDOWN, MOUSEEVENTF_XUP, code as i32),
    };
    MouseInput { flags: if press { down } else { up }, data, dx: 0, dy: 0 }
}

/// A wheel delta can be sent when it is not negative and its size in device
/// units fits the record's signed 32-bit field.
pub open spec fn wheel_fits(delta: int) -> bool {
    0 <= delta && delta * (WHEEL_DELTA as int) <= i32::MAX
}

/// The device units for `delta` wheel notches, or the failure when the
/// delta cannot be sent.
pub fn wheel_data(delta: i64) -> (r: Result<i32, SimulateError>)
    ensures
        r is Ok <==> wheel_fits(delta as int),
        r matches Ok(d) ==> d as int == delta * (WHEEL_DELTA as int),
{
    if delta < 0 || delta > (i32::MAX / (WHEEL_DELTA as i32)) as i64 {
        return Err(SimulateError);
    }
    Ok((delta as i32) * (WHEEL_DELTA as i32))
}

/// Integer division rounding toward zero.
pub open spec fn trunc_div(a: int, b: int) -> int {
    let q = abs(a) / abs(b);
    if (a < 0) != (b < 0) {
        -q
    } else {
        q
    }
}

pub open spec fn abs(a: int) -> int {
    if a < 0 {
        -a
    } else {
        a
    }
}

/// A pixel coordinate scaled to the absolute range over an extent of the
/// virtual desktop: `(p + 1) * 65535 / extent`.
pub open spec fn scaled(p: int, extent: int) -> int {
    trunc_div((p + 1) * ABSOLUTE_SCALE, extent)
}

pub open spec fn fits_i32(v: int) -> bool {
    i32::MIN <= v <= i32::MAX
}

pub open spec fn move_flags() -> u32 {
    MOUSEEVENTF_MOVE | MOUSEEVENTF_ABSOLUTE | MOUSEEVENTF_VIRTUALDESK
}

/// The absolute move to pixel (x, y) on a virtual desktop of the given size:
/// a failure when an extent is zero or a scaled coordinate leaves 32 bits.
pub open spec fn move_record(x: int, y: int, width: int, height: int) -> Result<
    MouseInput,
    SimulateError,
> {
    if width == 0 || height == 0 || !fits_i32(scaled(x, width)) || !fits_i32(scaled(y, height)) {
        Err(SimulateError)
    } else {
        Ok(
            MouseInput {
                flags: move_flags(),
                data: 0,
                dx: scaled(x, width) as i32,
                dy: scaled(y, height) as i32,
            },
        )
    }
}

/// `(p + 1) * 65535 / extent`, rounded toward zero, when it fits 32 bits.
fn scale(p: i32, extent: i32) -> (r: Option<i32>)
    requires
        extent != 0,
    ensures
        r is Some <==> fits_i32(scaled(p as int, extent as int)),
        r matches Some(v) ==> v as int == scaled(p as int, extent as int),
{
    let shifted: i64 = p as i64 + 1;
    assert(-0x8000_0000 * 65535 <= shifted * 65535 <= 0x8000_0000 * 65535) by (nonlinear_arith)
        requires
            -0x7fff_ffff <= shifted <= 0x8000_0000,
    ;
    let n: i64 = shifted * ABSOLUTE_SCALE;
    let num: u64 = if n < 0 { (-n) as u64 } else { n as u64 };
    let den: u64 = if extent < 0 { (-(extent as i64)) as u64 } else { extent as u64 };
    let q: u64 = num / den;
    assert(q as int == abs(n as int) / abs(extent as int));
    if (n < 0) != (extent < 0) {
        if q > 0x8000_0000 {
            None
        } else {
            Some((-(q as i64)) as i32)
        }
    } else {
        if q > 0x7fff_ffff {
            None
        } else {
            Some(q as i32)
        }
    }
}

/// The record that moves the pointer to pixel (x, y) of a virtual desktop
/// `width` by `height` pixels.
pub fn move_input(x: i32, y: i32, width: i32, height: i32) -> (r: Result<
    MouseInput,
    SimulateError,
>)
    ensures
        r == move_record(x as int, y as int, width as int, height as int),
{
    if width == 0 || height == 0 {
        return Err(SimulateError);
    }
    let dx = match scale(x, width) {
        Some(v) => v,
        None => return Err(SimulateError),
    };
    let dy = match scale(y, height) {
        Some(v) => v,
        None => return Err(SimulateError),
    };
    Ok(
        MouseInput {
            flags: MOUSEEVENTF_MOVE | MOUSEEVENTF_ABSOLUTE | MOUSEEVENTF_VIRTUALDESK,
            data: 0,
            dx,
            dy,
        },
    )
}

} // verus!
