use input_inject::input::{
    ABSOLUTE_SCALE, KEYEVENTF_KEYUP, MOUSEEVENTF_ABSOLUTE, MOUSEEVENTF_HWHEEL,
    MOUSEEVENTF_LEFTDOWN, MOUSEEVENTF_LEFTUP, MOUSEEVENTF_MIDDLEDOWN, MOUSEEVENTF_MIDDLEUP,
    MOUSEEVENTF_MOVE, MOUSEEVENTF_RIGHTDOWN, MOUSEEVENTF_RIGHTUP, MOUSEEVENTF_VIRTUALDESK,
    MOUSEEVENTF_WHEEL, MOUSEEVENTF_XDOWN, MOUSEEVENTF_XUP, MOUSE_BACKWARD, MOUSE_FORWARD,
    WHEEL_DELTA,
};
use windows_sys::Win32::UI::Input::KeyboardAndMouse as km;
use windows_sys::Win32::UI::WindowsAndMessaging as wm;
use input_inject::{
    accepted, button_input, move_input, next_step, wheel_data, Button, EventType, Input, Key,
    KeyDirection, KeyboardInput, MouseInput, Replies, SimulateError, Step,
};

/// Runs the step machine against fixed tables, a fixed screen and an OS that
/// takes records while `takes` says so; returns what was sent and the outcome.
fn drive(
    event: EventType,
    code_of: fn(Key) -> Option<u16>,
    scan_of: fn(u16) -> Option<u16>,
    screen: (i32, i32),
    takes: &[u32],
) -> (Vec<Input>, Result<(), SimulateError>) {
    let mut replies = Replies::new();
    let mut sent = Vec::new();
    for _ in 0..16 {
        match next_step(&event, &replies) {
            Step::LookUpCode(k) => replies.code = Some(code_of(k)),
            Step::LookUpScan(c) => replies.scan = Some(scan_of(c)),
            Step::MeasureScreen => replies.screen = Some(screen),
            Step::Send(input) => {
                let count = takes.get(sent.len()).copied().unwrap_or(1);
                sent.push(input);
                replies.sent.push(count);
            }
            Step::Done(outcome) => return (sent, outcome),
        }
    }
    panic!("the step machine did not finish");
}

fn table(k: Key) -> Option<u16> {
    if k.0 < 100 { Some(k.0 as u16 + 0x30) } else { None }
}

fn scans(c: u16) -> Option<u16> {
    if c == 0x31 { None } else { Some(c + 0x100) }
}

fn run(event: EventType) -> (Vec<Input>, Result<(), SimulateError>) {
    drive(event, table, scans, (1920, 1080), &[])
}

fn mouse(flags: u32, data: i32, dx: i32, dy: i32) -> Input {
    Input::Mouse(MouseInput { flags, data, dx, dy })
}

#[test]
fn button_press_left_sends_left_down() {
    let (sent, outcome) = run(EventType::ButtonPress(Button::Left));
    assert_eq!(sent, vec![mouse(MOUSEEVENTF_LEFTDOWN, 0, 0, 0)]);
    assert_eq!(outcome, Ok(()));
}

#[test]
fn wheel_vertical_three_notches() {
    let (sent, outcome) = run(EventType::Wheel { delta_x: 0, delta_y: 3 });
    assert_eq!(sent, vec![mouse(MOUSEEVENTF_WHEEL, 360, 0, 0)]);
    assert_eq!(outcome, Ok(()));
}

#[test]
fn mouse_move_scales_to_absolute_range() {
    let (sent, outcome) = run(EventType::MouseMove { x: 100, y: 200 });
    let flags = MOUSEEVENTF_MOVE | MOUSEEVENTF_ABSOLUTE | MOUSEEVENTF_VIRTUALDESK;
    assert_eq!(sent, vec![mouse(flags, 0, 3447, 12196)]);
    assert_eq!(outcome, Ok(()));
}

#[test]
fn key_press_unmapped_fails_without_sending() {
    let (sent, outcome) = run(EventType::KeyPress(Key(500)));
    assert!(sent.is_empty());
    assert_eq!(outcome, Err(SimulateError));
}

#[test]
fn key_without_scan_code_fails_without_sending() {
    let (sent, outcome) = run(EventType::KeyRelease(Key(1)));
    assert!(sent.is_empty());
    assert_eq!(outcome, Err(SimulateError));
}

#[test]
fn key_press_and_release_send_one_record() {
    let (sent, outcome) = run(EventType::KeyPress(Key(5)));
    assert_eq!(sent, vec![Input::Keyboard(KeyboardInput { flags: 0, vk: 0x35, scan: 0x135 })]);
    assert_eq!(outcome, Ok(()));
    let (sent, outcome) = run(EventType::KeyRelease(Key(5)));
    let up = KeyboardInput { flags: KEYEVENTF_KEYUP, vk: 0x35, scan: 0x135 };
    assert_eq!(sent, vec![Input::Keyboard(up)]);
    assert_eq!(outcome, Ok(()));
}

#[test]
fn key_directions_have_their_flags() {
    assert_eq!(KeyDirection::Down.flags(), 0);
    assert_eq!(KeyDirection::Up.flags(), 2);
}

#[test]
fn main_buttons_have_fixed_flag_pairs() {
    let pairs = [
        (Button::Left, MOUSEEVENTF_LEFTDOWN, MOUSEEVENTF_LEFTUP),
        (Button::Middle, MOUSEEVENTF_MIDDLEDOWN, MOUSEEVENTF_MIDDLEUP),
        (Button::Right, MOUSEEVENTF_RIGHTDOWN, MOUSEEVENTF_RIGHTUP),
    ];
    for (b, down, up) in pairs {
        assert_eq!(button_input(b, true), MouseInput { flags: down, data: 0, dx: 0, dy: 0 });
        assert_eq!(button_input(b, false), MouseInput { flags: up, data: 0, dx: 0, dy: 0 });
        let (sent, outcome) = run(EventType::ButtonRelease(b));
        assert_eq!(sent, vec![mouse(up, 0, 0, 0)]);
        assert_eq!(outcome, Ok(()));
    }
}

#[test]
fn extra_buttons_carry_their_ids() {
    assert_eq!(button_input(Button::Forward, true), MouseInput { flags: MOUSEEVENTF_XDOWN, data: 1, dx: 0, dy: 0 });
    assert_eq!(button_input(Button::Backward, false), MouseInput { flags: MOUSEEVENTF_XUP, data: 2, dx: 0, dy: 0 });
    assert_eq!(button_input(Button::Unknown(1), true).data, 1);
    assert_eq!(button_input(Button::Unknown(7), false), MouseInput { flags: MOUSEEVENTF_XUP, data: 7, dx: 0, dy: 0 });
    assert_eq!(button_input(Button::Unknown(255), true).data, 255);
}

#[test]
fn wheel_without_deltas_sends_nothing() {
    let (sent, outcome) = run(EventType::Wheel { delta_x: 0, delta_y: 0 });
    assert!(sent.is_empty());
    assert_eq!(outcome, Ok(()));
}

#[test]
fn wheel_horizontal_only_sends_one_record() {
    let (sent, outcome) = run(EventType::Wheel { delta_x: 2, delta_y: 0 });
    assert_eq!(sent, vec![mouse(MOUSEEVENTF_HWHEEL, 240, 0, 0)]);
    assert_eq!(outcome, Ok(()));
}

#[test]
fn wheel_both_axes_horizontal_first() {
    let (sent, outcome) = run(EventType::Wheel { delta_x: 1, delta_y: 4 });
    assert_eq!(sent, vec![mouse(MOUSEEVENTF_HWHEEL, 120, 0, 0), mouse(MOUSEEVENTF_WHEEL, 480, 0, 0)]);
    assert_eq!(outcome, Ok(()));
}

#[test]
fn wheel_negative_delta_fails_before_sending() {
    let (sent, outcome) = run(EventType::Wheel { delta_x: -1, delta_y: 3 });
    assert!(sent.is_empty());
    assert_eq!(outcome, Err(SimulateError));
    let (sent, outcome) = run(EventType::Wheel { delta_x: 0, delta_y: -2 });
    assert!(sent.is_empty());
    assert_eq!(outcome, Err(SimulateError));
}

#[test]
fn wheel_negative_second_axis_fails_after_first() {
    let (sent, outcome) = run(EventType::Wheel { delta_x: 1, delta_y: -1 });
    assert_eq!(sent, vec![mouse(MOUSEEVENTF_HWHEEL, 120, 0, 0)]);
    assert_eq!(outcome, Err(SimulateError));
}

#[test]
fn wheel_refused_first_axis_stops() {
    let (sent, outcome) = drive(EventType::Wheel { delta_x: 1, delta_y: 1 }, table, scans, (1920, 1080), &[0]);
    assert_eq!(sent.len(), 1);
    assert_eq!(outcome, Err(SimulateError));
}

#[test]
fn wheel_data_limits() {
    assert_eq!(wheel_data(1), Ok(120));
    assert_eq!(wheel_data(17_895_697), Ok(2_147_483_640));
    assert_eq!(wheel_data(17_895_698), Err(SimulateError));
    assert_eq!(wheel_data(i64::MAX), Err(SimulateError));
    assert_eq!(wheel_data(-1), Err(SimulateError));
}

#[test]
fn mouse_move_zero_extent_fails_before_sending() {
    for screen in [(0, 1080), (1920, 0), (0, 0)] {
        let (sent, outcome) = drive(EventType::MouseMove { x: 10, y: 10 }, table, scans, screen, &[]);
        assert!(sent.is_empty());
        assert_eq!(outcome, Err(SimulateError));
    }
}

#[test]
fn move_input_rounds_toward_zero() {
    let flags = MOUSEEVENTF_MOVE | MOUSEEVENTF_ABSOLUTE | MOUSEEVENTF_VIRTUALDESK;
    assert_eq!(move_input(-5, -1, 1920, 1080), Ok(MouseInput { flags, data: 0, dx: -136, dy: 0 }));
    assert_eq!(move_input(1919, 1079, 1920, 1080), Ok(MouseInput { flags, data: 0, dx: 65535, dy: 65535 }));
    assert_eq!(move_input(9, 9, -10, 10), Ok(MouseInput { flags, data: 0, dx: -65535, dy: 65535 }));
}

#[test]
fn move_input_out_of_range_fails() {
    assert_eq!(move_input(2_000_000_000, 0, 1, 1), Err(SimulateError));
    assert_eq!(move_input(0, i32::MIN, 1, 1), Err(SimulateError));
    assert_eq!(move_input(i32::MAX, i32::MAX, i32::MAX, i32::MAX).map(|m| m.dx), Ok(65535));
}

#[test]
fn refused_record_is_a_failure() {
    assert_eq!(accepted(1), Ok(()));
    assert_eq!(accepted(0), Err(SimulateError));
    assert_eq!(accepted(2), Err(SimulateError));
    let (sent, outcome) = drive(EventType::KeyPress(Key(5)), table, scans, (1920, 1080), &[0]);
    assert_eq!(sent.len(), 1);
    assert_eq!(outcome, Err(SimulateError));
}

#[test]
fn identical_events_send_again() {
    let first = run(EventType::ButtonPress(Button::Right));
    let second = run(EventType::ButtonPress(Button::Right));
    assert_eq!(first.0.len(), 1);
    assert_eq!(first, second);
}

#[test]
fn constants_match_the_os_headers() {
    assert_eq!(MOUSEEVENTF_MOVE, km::MOUSEEVENTF_MOVE);
    assert_eq!(MOUSEEVENTF_LEFTDOWN, km::MOUSEEVENTF_LEFTDOWN);
    assert_eq!(MOUSEEVENTF_LEFTUP, km::MOUSEEVENTF_LEFTUP);
    assert_eq!(MOUSEEVENTF_RIGHTDOWN, km::MOUSEEVENTF_RIGHTDOWN);
    assert_eq!(MOUSEEVENTF_RIGHTUP, km::MOUSEEVENTF_RIGHTUP);
    assert_eq!(MOUSEEVENTF_MIDDLEDOWN, km::MOUSEEVENTF_MIDDLEDOWN);
    assert_eq!(MOUSEEVENTF_MIDDLEUP, km::MOUSEEVENTF_MIDDLEUP);
    assert_eq!(MOUSEEVENTF_XDOWN, km::MOUSEEVENTF_XDOWN);
    assert_eq!(MOUSEEVENTF_XUP, km::MOUSEEVENTF_XUP);
    assert_eq!(MOUSEEVENTF_WHEEL, km::MOUSEEVENTF_WHEEL);
    assert_eq!(MOUSEEVENTF_HWHEEL, km::MOUSEEVENTF_HWHEEL);
    assert_eq!(MOUSEEVENTF_VIRTUALDESK, km::MOUSEEVENTF_VIRTUALDESK);
    assert_eq!(MOUSEEVENTF_ABSOLUTE, km::MOUSEEVENTF_ABSOLUTE);
    assert_eq!(KEYEVENTF_KEYUP, km::KEYEVENTF_KEYUP);
    assert_eq!(WHEEL_DELTA, wm::WHEEL_DELTA);
    assert_eq!((MOUSE_FORWARD, MOUSE_BACKWARD), (1, 2));
    assert_eq!(ABSOLUTE_SCALE, 65535);
}
