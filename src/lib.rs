//! Turns abstract input events (keys, mouse buttons, wheel, pointer moves) into
//! the exact records that an operating system's input-injection call takes.
//!
//! The library decides; a driver performs. `dispatch::next_step` looks at an
//! event and at what the driver has reported so far, and names the one thing
//! to do next: look a key up, measure the virtual desktop, send one record, or
//! finish with the outcome.
pub mod dispatch;
pub mod event;
pub mod input;
pub mod laws;

pub use dispatch::{next_step, Replies, Step};
pub use event::{Button, EventType, Key, SimulateError};
pub use input::{
    accepted, button_input, move_input, wheel_data, Input, KeyDirection, KeyboardInput,
    MouseInput,
};
