use crate::event::{EventType, Key, SimulateError};
use crate::input::{
    accepted, button_input, button_record, move_input, move_record, wheel_data,
    wheel_fits, Input, KeyDirection, KeyboardInput, MouseInput, MOUSEEVENTF_HWHEEL,
    MOUSEEVENTF_WHEEL, WHEEL_DELTA,
};
use vstd::prelude::*;

verus! {

/// What the driver has learned so far while simulating one event.
/// Each field starts empty and is filled in answer to the step that asks
/// for it.
pub struct Replies {
    /// The key table's answer for the event's key.
    pub code: Option<Option<u16>>,
    /// The scan table's answer for that code.
    pub scan: Option<Option<u16>>,
    /// The virtual desktop's width and height, in pixels.
    pub screen: Option<(i32, i32)>,
    /// For each record sent so far, how many records the OS took.
    pub sent: Vec<u32>,
}

pub struct RepliesView {
    pub code: Option<Option<u16>>,
    pub scan: Option<Option<u16>>,
    pub screen: Option<(i32, i32)>,
    pub sent: Seq<u32>,
}

impl View for Replies {
    type V = RepliesView;

    open spec fn view(&self) -> RepliesView {
        RepliesView { code: self.code, scan: self.scan, screen: self.screen, sent: self.sent@ }
    }
}

/// Nothing learned yet.
pub open spec fn no_replies() -> RepliesView {
    RepliesView { code: None, scan: None, screen: None, sent: Seq::empty() }
}

impl Replies {
    pub fn new() -> (r: Replies)
        ensures
            r@ == no_replies(),
    {
        Replies { code: None, scan: None, screen: None, sent: Vec::new() }
    }
}

/// The one thing the driver does next.
#[derive(Clone, Copy, Debug, PartialEq, Eq)]
pub enum Step {
    /// Look the key up in the key table; answer in `Replies::code`.
    LookUpCode(Key),
    /// Look the code up in the scan table; answer in `Replies::scan`.
    LookUpScan(u16),
    /// Measure the virtual desktop; answer in `Replies::screen`.
    MeasureScreen,
    /// Send this one record; push the OS's count onto `Replies::sent`.
    Send(Input),
    /// The event is finished, with this outcome.
    Done(Result<(), SimulateError>),
}

/// Some record sent so far was not taken.
pub open spec fn any_refused(sent: Seq<u32>) -> bool {
    exists|i: int| 0 <= i < sent.len() && sent[i] != 1
}

/// Send the records of `script` one by one, stopping at the first that is
/// not taken; once all are taken, finish with `end`.
pub open spec fn send_all(script: Seq<Input>, end: Result<(), SimulateError>, sent: Seq<u32>) -> Step {
    if any_refused(sent) {
        Step::Done(Err(SimulateError))
    } else if sent.len() < script.len() {
        Step::Send(script[sent.len() as int])
    } else {
        Step::Done(end)
    }
}

pub open spec fn key_step(k: Key, dir: KeyDirection, r: RepliesView) -> Step {
    match r.code {
        None => Step::LookUpCode(k),
        Some(None) => Step::Done(Err(SimulateError)),
        Some(Some(vk)) => match r.scan {
            None => Step::LookUpScan(vk),
            Some(None) => Step::Done(Err(SimulateError)),
            Some(Some(scan)) => send_all(
                seq![Input::Keyboard(KeyboardInput { flags: dir.spec_flags(), vk, scan })],
                Ok(()),
                r.sent,
            ),
        },
    }
}

/// An axis of a wheel event can be handled: it is zero or it fits.
pub open spec fn axis_ok(delta: int) -> bool {
    delta == 0 || wheel_fits(delta)
}

/// The record for one wheel axis; none for a zero delta.
pub open spec fn wheel_axis(delta: int, flags: u32) -> Seq<Input> {
    if delta == 0 {
        seq![]
    } else {
        seq![Input::Mouse(MouseInput { flags, data: (delta * WHEEL_DELTA) as i32, dx: 0, dy: 0 })]
    }
}

/// The records of a wheel event: horizontal first, then vertical, up to the
/// first axis that cannot be sent.
pub open spec fn wheel_script(dx: int, dy: int) -> Seq<Input> {
    if !axis_ok(dx) {
        seq![]
    } else if !axis_ok(dy) {
        wheel_axis(dx, MOUSEEVENTF_HWHEEL)
    } else {
        wheel_axis(dx, MOUSEEVENTF_HWHEEL) + wheel_axis(dy, MOUSEEVENTF_WHEEL)
    }
}

/// How a wheel event ends once its records are taken.
pub open spec fn wheel_end(dx: int, dy: int) -> Result<(), SimulateError> {
    if axis_ok(dx) && axis_ok(dy) {
        Ok(())
    } else {
        Err(SimulateError)
    }
}

pub open spec fn move_step(x: i32, y: i32, r: RepliesView) -> Step {
    match r.screen {
        None => Step::MeasureScreen,
        Some((w, h)) => match move_record(x as int, y as int, w as int, h as int) {
            Err(e) => Step::Done(Err(e)),
            Ok(m) => send_all(seq![Input::Mouse(m)], Ok(()), r.sent),
        },
    }
}

/// The next step for event `e` after replies `r`.
pub open spec fn step_after(e: EventType, r: RepliesView) -> Step {
    match e {
        EventType::KeyPress(k) => key_step(k, KeyDirection::Down, r),
        EventType::KeyRelease(k) => key_step(k, KeyDirection::Up, r),
        EventType::ButtonPress(b) => send_all(
            seq![Input::Mouse(button_record(b, true))],
            Ok(()),
            r.sent,
        ),
        EventType::ButtonRelease(b) => send_all(
            seq![Input::Mouse(button_record(b, false))],
            Ok(()),
            r.sent,
        ),
        EventType::Wheel { delta_x, delta_y } => send_all(
            wheel_script(delta_x as int, delta_y as int),
            wheel_end(delta_x as int, delta_y as int),
            r.sent,
        ),
        EventType::MouseMove { x, y } => move_step(x, y, r),
    }
}

fn send_script(script: Vec<Input>, end: Result<(), SimulateError>, sent: &Vec<u32>) -> (r: Step)
    ensures
        r == send_all(script@, end, sent@),
{
    let mut i: usize = 0;
    while i < sent.len()
        invariant
            i <= sent.len(),
            forall|j: int| 0 <= j < i ==> sent@[j] == 1,
        decreases sent.len() - i,
    {
        if let Err(e) = accepted(sent[i]) {
            assert(sent@[i as int] != 1);
            return Step::Done(Err(e));
        }
        i += 1;
    }
    assert(!any_refused(sent@));
    if sent.len() < script.len() {
        Step::Send(script[sent.len()])
    } else {
        Step::Done(end)
    }
}

fn wheel_records(delta_x: i64, delta_y: i64) -> (r: (Vec<Input>, Result<(), SimulateError>))
    ensures
        r.0@ == wheel_script(delta_x as int, delta_y as int),
        r.1 == wheel_end(delta_x as int, delta_y as int),
{
    let mut script: Vec<Input> = Vec::new();
    if delta_x != 0 {
        match wheel_data(delta_x) {
            Ok(data) => script.push(
                Input::Mouse(MouseInput { flags: MOUSEEVENTF_HWHEEL, data, dx: 0, dy: 0 }),
            ),
            Err(e) => {
                assert(script@ =~= wheel_script(delta_x as int, delta_y as int));
                return (script, Err(e));
            },
        }
    }
    assert(script@ =~= wheel_axis(delta_x as int, MOUSEEVENTF_HWHEEL));
    if delta_y != 0 {
        match wheel_data(delta_y) {
            Ok(data) => script.push(
                Input::Mouse(MouseInput { flags: MOUSEEVENTF_WHEEL, data, dx: 0, dy: 0 }),
            ),
            Err(e) => return (script, Err(e)),
        }
    }
    assert(script@ =~= wheel_script(delta_x as int, delta_y as int));
    (script, Ok(()))
}

/// Decides what to do next to simulate `event`, given what `replies` holds.
/// A driver starts from `Replies::new()`, performs each step, records its
/// answer, and stops at `Step::Done`.
pub fn next_step(event: &EventType, replies: &Replies) -> (r: Step)
    ensures
        r == step_after(*event, replies@),
{
    match *event {
        EventType::KeyPress(k) => key_next(k, KeyDirection::Down, replies),
        EventType::KeyRelease(k) => key_next(k, KeyDirection::Up, replies),
        EventType::ButtonPress(b) => send_script(
            vec![Input::Mouse(button_input(b, true))],
            Ok(()),
            &replies.sent,
        ),
        EventType::ButtonRelease(b) => send_script(
            vec![Input::Mouse(button_input(b, false))],
            Ok(()),
            &replies.sent,
        ),
        EventType::Wheel { delta_x, delta_y } => {
            let (script, end) = wheel_records(delta_x, delta_y);
            send_script(script, end, &replies.sent)
        },
        EventType::MouseMove { x, y } => match replies.screen {
            None => Step::MeasureScreen,
            Some((width, height)) => match move_input(x, y, width, height) {
                Err(e) => Step::Done(Err(e)),
                Ok(m) => send_script(vec![Input::Mouse(m)], Ok(()), &replies.sent),
            },
        },
    }
}

fn key_next(k: Key, dir: KeyDirection, replies: &Replies) -> (r: Step)
    ensures
        r == key_step(k, dir, replies@),
{
    match replies.code {
        None => Step::LookUpCode(k),
        Some(None) => Step::Done(Err(SimulateError)),
        Some(Some(vk)) => match replies.scan {
            None => Step::LookUpScan(vk),
            Some(None) => Step::Done(Err(SimulateError)),
            Some(Some(scan)) => send_script(
                vec![Input::Keyboard(KeyboardInput { flags: dir.flags(), vk, scan })],
                Ok(()),
                &replies.sent,
            ),
        },
    }
}

} // verus!
