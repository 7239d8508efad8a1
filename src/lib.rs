//! Coordination core of a terminal status dashboard: the messages that flow
//! between the controller, the update relay and the display thread, and the
//! state machines that decide what each participant does with them.
//!
//! The threads, channels and the terminal itself live with the caller; every
//! decision they act on is made here.

pub mod clock;
pub mod controller;
pub mod display_thread;
pub mod messages;
pub mod relay;

pub use clock::{millis_of, now_millis};
pub use controller::{ControllerAction, ControllerState, POLL_INTERVAL_MS, UPDATE_INTERVAL_MS};
pub use display_thread::DisplayThread;
pub use messages::{ControllerMessage, UIMessage};
pub use relay::{Relay, RelayAction};
