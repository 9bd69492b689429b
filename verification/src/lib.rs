//! A bridge from a six-degree-of-freedom HID controller, the SpaceNavigator,
//! to a virtual joystick.
//!
//! The crate holds the decisions of the bridge: which driver checks run and
//! in what order, which enumerated device is the SpaceNavigator, how a report
//! frame changes the joystick state, and when the polling loop reads, pushes
//! or stops.  Talking to the HID transport and to the joystick driver is left
//! to the caller, who carries out the actions that the state machines ask for
//! and hands back what came of them.

pub mod error;
pub mod state;
pub mod report;
pub mod handshake;
pub mod locator;
pub mod control;
pub mod bridge;
