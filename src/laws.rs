use crate::dispatch::{no_replies, step_after, RepliesView, Step};
use crate::event::{Button, EventType, Key, SimulateError};
use crate::input::{
    move_flags, outcome_of, trunc_div, wheel_fits, Input, KeyDirection,
    KeyboardInput, MouseInput, ABSOLUTE_SCALE, MOUSEEVENTF_HWHEEL, MOUSEEVENTF_LEFTDOWN,
    MOUSEEVENTF_LEFTUP, MOUSEEVENTF_MIDDLEDOWN, MOUSEEVENTF_MIDDLEUP, MOUSEEVENTF_RIGHTDOWN,
    MOUSEEVENTF_RIGHTUP, MOUSEEVENTF_WHEEL, MOUSEEVENTF_XDOWN, MOUSEEVENTF_XUP, WHEEL_DELTA,
};
use vstd::prelude::*;

verus! {

/// Replies that hold only what the key and scan tables answered.
pub open spec fn looked_up(code: Option<Option<u16>>, scan: Option<Option<u16>>) -> RepliesView {
    RepliesView { code, scan, screen: None, sent: Seq::empty() }
}

/// Replies that hold only the counts the OS gave for the records sent.
pub open spec fn sent_only(sent: Seq<u32>) -> RepliesView {
    RepliesView { code: None, scan: None, screen: None, sent }
}

/// A key event succeeds exactly when the key table gives a code, the scan
/// table gives a scan code for it, and the OS takes the one keyboard record
/// built from them: a press with flags zero, a release with the key-up flag.
/// A lookup that finds nothing fails the event before anything is sent.
pub proof fn key_event_needs_both_lookups(
    k: Key,
    press: bool,
    code: Option<u16>,
    scan: Option<u16>,
    count: u32,
)
    ensures
        ({
            let e = if press { EventType::KeyPress(k) } else { EventType::KeyRelease(k) };
            let dir = if press { KeyDirection::Down } else { KeyDirection::Up };
            let done_scan = RepliesView {
                code: Some(code),
                scan: Some(scan),
                screen: None,
                sent: seq![count],
            };
            &&& step_after(e, no_replies()) == Step::LookUpCode(k)
            &&& code is None ==> step_after(e, looked_up(Some(code), None)) == Step::Done(
                Err(SimulateError),
            )
            &&& code matches Some(vk) ==> {
                &&& step_after(e, looked_up(Some(code), None)) == Step::LookUpScan(vk)
                &&& scan is None ==> step_after(e, looked_up(Some(code), Some(scan))) == Step::Done(
                    Err(SimulateError),
                )
                &&& scan matches Some(sc) ==> {
                    &&& step_after(e, looked_up(Some(code), Some(scan))) == Step::Send(
                        Input::Keyboard(KeyboardInput { flags: dir.spec_flags(), vk, scan: sc }),
                    )
                    &&& step_after(e, done_scan) == Step::Done(outcome_of(count))
                }
            }
            &&& dir.spec_flags() == (if press { 0u32 } else { 2u32 })
        }),
{
    if let Some(vk) = code {
        if let Some(sc) = scan {
            let e = if press { EventType::KeyPress(k) } else { EventType::KeyRelease(k) };
            assert(!crate::dispatch::any_refused(Seq::<u32>::empty()));
            if count == 1 {
                assert(!crate::dispatch::any_refused(seq![count]));
            } else {
                assert(seq![count][0] != 1);
            }
        }
    }
}

/// Pressing or releasing Left, Middle or Right sends one record with that
/// button's fixed down or up flag, auxiliary value zero and no movement, and
/// succeeds exactly when the OS takes it.
pub proof fn main_buttons_use_fixed_flags(b: Button, press: bool, count: u32)
    requires
        b is Left || b is Middle || b is Right,
    ensures
        ({
            let e = if press { EventType::ButtonPress(b) } else { EventType::ButtonRelease(b) };
            let flags = match b {
                Button::Left => if press { MOUSEEVENTF_LEFTDOWN } else { MOUSEEVENTF_LEFTUP },
                Button::Middle => if press { MOUSEEVENTF_MIDDLEDOWN } else { MOUSEEVENTF_MIDDLEUP },
                _ => if press { MOUSEEVENTF_RIGHTDOWN } else { MOUSEEVENTF_RIGHTUP },
            };
            &&& step_after(e, no_replies()) == Step::Send(
                Input::Mouse(MouseInput { flags, data: 0, dx: 0, dy: 0 }),
            )
            &&& step_after(e, sent_only(seq![count])) == Step::Done(outcome_of(count))
        }),
{
    assert(!crate::dispatch::any_refused(Seq::<u32>::empty()));
    if count == 1 {
        assert(!crate::dispatch::any_refused(seq![count]));
    } else {
        assert(seq![count][0] != 1);
    }
}

/// The extra buttons send one X-button record whose auxiliary id is 1 for
/// Forward, 2 for Backward, and the code itself for `Unknown(code)`.
pub proof fn extra_buttons_carry_their_id(b: Button, press: bool)
    requires
        !(b is Left || b is Middle || b is Right),
    ensures
        ({
            let e = if press { EventType::ButtonPress(b) } else { EventType::ButtonRelease(b) };
            let id: i32 = match b {
                Button::Forward => 1,
                Button::Backward => 2,
                Button::Unknown(code) => code as i32,
                _ => 0,
            };
            let flags = if press { MOUSEEVENTF_XDOWN } else { MOUSEEVENTF_XUP };
            step_after(e, no_replies()) == Step::Send(
                Input::Mouse(MouseInput { flags, data: id, dx: 0, dy: 0 }),
            )
        }),
{
    assert(!crate::dispatch::any_refused(Seq::<u32>::empty()));
}

/// A wheel event with both deltas zero sends nothing and succeeds. One with
/// only a horizontal delta sends exactly one horizontal record of
/// `delta_x * 120` device units and nothing vertical. A negative delta is a
/// failure: on the first axis before anything is sent, on the second after
/// the first axis went out.
pub proof fn wheel_sends_one_record_per_axis(delta_x: i64, delta_y: i64, count: u32)
    ensures
        step_after(EventType::Wheel { delta_x: 0, delta_y: 0 }, no_replies()) == Step::Done(Ok(())),
        delta_x != 0 && wheel_fits(delta_x as int) ==> {
            let e = EventType::Wheel { delta_x, delta_y: 0 };
            let h = MouseInput {
                flags: MOUSEEVENTF_HWHEEL,
                data: (delta_x * WHEEL_DELTA) as i32,
                dx: 0,
                dy: 0,
            };
            &&& step_after(e, no_replies()) == Step::Send(Input::Mouse(h))
            &&& step_after(e, sent_only(seq![count])) == Step::Done(outcome_of(count))
        },
        delta_x < 0 || (delta_x == 0 && delta_y < 0) ==> step_after(
            EventType::Wheel { delta_x, delta_y },
            no_replies(),
        ) == Step::Done(Err(SimulateError)),
        delta_x != 0 && wheel_fits(delta_x as int) && delta_y < 0 ==> {
            let e = EventType::Wheel { delta_x, delta_y };
            &&& step_after(e, no_replies()) is Send
            &&& step_after(e, sent_only(seq![1])) == Step::Done(Err(SimulateError))
        },
{
    assert(!crate::dispatch::any_refused(Seq::<u32>::empty()));
    assert(!crate::dispatch::any_refused(seq![1u32]));
    if count != 1 {
        assert(seq![count][0] != 1);
    }
}

/// A pointer move first measures the virtual desktop. With a zero extent it
/// fails before anything is sent. With width `w` and height `h` above zero it
/// sends one absolute, virtual-desktop move to `(x + 1) * 65535 / w` and
/// `(y + 1) * 65535 / h` (integer division, rounding toward zero), provided
/// these fit 32 bits, and succeeds exactly when the OS takes it.
pub proof fn move_scales_to_absolute_range(x: i32, y: i32, w: i32, h: i32, count: u32)
    ensures
        ({
            let e = EventType::MouseMove { x, y };
            let measured = RepliesView { code: None, scan: None, screen: Some((w, h)), sent: seq![] };
            let sx = trunc_div((x + 1) * ABSOLUTE_SCALE, w as int);
            let sy = trunc_div((y + 1) * ABSOLUTE_SCALE, h as int);
            &&& step_after(e, no_replies()) == Step::MeasureScreen
            &&& (w == 0 || h == 0) ==> step_after(e, measured) == Step::Done(Err(SimulateError))
            &&& (w > 0 && h > 0 && i32::MIN <= sx <= i32::MAX && i32::MIN <= sy <= i32::MAX) ==> {
                &&& step_after(e, measured) == Step::Send(
                    Input::Mouse(MouseInput { flags: move_flags(), data: 0, dx: sx as i32, dy: sy as i32 }),
                )
                &&& step_after(e, RepliesView { sent: seq![count], ..measured }) == Step::Done(
                    outcome_of(count),
                )
            }
            &&& move_flags() == 0x0001u32 | 0x8000u32 | 0x4000u32
        }),
{
    assert(!crate::dispatch::any_refused(Seq::<u32>::empty()));
    if count == 1 {
        assert(!crate::dispatch::any_refused(seq![count]));
    } else {
        assert(seq![count][0] != 1);
    }
}

} // verus!
