//! The record that is pushed to the virtual joystick driver.

use vstd::prelude::*;

verus! {

/// The full input surface of one virtual joystick.
///
/// The bridge drives the three translation axes, the three rotation axes and
/// the first button bank.  Every other field is an auxiliary of the driver
/// that stays at zero.
#[derive(Clone, Copy, Debug, PartialEq, Eq, Structural)]
pub struct JoystickState {
    /// Identifier of the virtual device, counted from one.
    pub device: u8,
    pub throttle: i32,
    pub rudder: i32,
    pub aileron: i32,
    pub axis_x: i32,
    pub axis_y: i32,
    pub axis_z: i32,
    pub axis_x_rot: i32,
    pub axis_y_rot: i32,
    pub axis_z_rot: i32,
    pub slider: i32,
    pub dial: i32,
    pub wheel: i32,
    pub axis_vx: i32,
    pub axis_vy: i32,
    pub axis_vz: i32,
    pub axis_vbrx: i32,
    pub axis_vbry: i32,
    pub axis_vbrz: i32,
    /// One bit per physical button.
    pub buttons: i32,
    pub hats: u32,
    pub hats_ex1: u32,
    pub hats_ex2: u32,
    pub hats_ex3: u32,
    pub buttons_ex1: i32,
    pub buttons_ex2: i32,
    pub buttons_ex3: i32,
}

/// Smallest value the translator can write to an axis.
pub const AXIS_FLOOR: i32 = -1_523_713;

/// Largest value the translator can write to an axis.
pub const AXIS_CEILING: i32 = 1_556_432;

/// An axis holds what the translator can have written, or its initial zero.
pub open spec fn axis_in_reach(value: i32) -> bool {
    AXIS_FLOOR <= value <= AXIS_CEILING
}

impl JoystickState {
    /// The state of device `device` before any report: all zero.
    pub open spec fn initial(device: u8) -> JoystickState {
        JoystickState {
            device,
            throttle: 0,
            rudder: 0,
            aileron: 0,
            axis_x: 0,
            axis_y: 0,
            axis_z: 0,
            axis_x_rot: 0,
            axis_y_rot: 0,
            axis_z_rot: 0,
            slider: 0,
            dial: 0,
            wheel: 0,
            axis_vx: 0,
            axis_vy: 0,
            axis_vz: 0,
            axis_vbrx: 0,
            axis_vbry: 0,
            axis_vbrz: 0,
            buttons: 0,
            hats: 0,
            hats_ex1: 0,
            hats_ex2: 0,
            hats_ex3: 0,
            buttons_ex1: 0,
            buttons_ex2: 0,
            buttons_ex3: 0,
        }
    }

    /// The driver auxiliaries are all at zero.
    pub open spec fn auxiliaries_clear(self) -> bool {
        &&& self.throttle == 0
        &&& self.rudder == 0
        &&& self.aileron == 0
        &&& self.slider == 0
        &&& self.dial == 0
        &&& self.wheel == 0
        &&& self.axis_vx == 0
        &&& self.axis_vy == 0
        &&& self.axis_vz == 0
        &&& self.axis_vbrx == 0
        &&& self.axis_vbry == 0
        &&& self.axis_vbrz == 0
        &&& self.hats == 0
        &&& self.hats_ex1 == 0
        &&& self.hats_ex2 == 0
        &&& self.hats_ex3 == 0
        &&& self.buttons_ex1 == 0
        &&& self.buttons_ex2 == 0
        &&& self.buttons_ex3 == 0
    }

    /// What holds of every state the bridge builds: a device counted from
    /// one, clear auxiliaries, six axes within the translator's reach and a
    /// button mask of one byte.
    pub open spec fn wf(self) -> bool {
        &&& self.device >= 1
        &&& self.auxiliaries_clear()
        &&& axis_in_reach(self.axis_x)
        &&& axis_in_reach(self.axis_y)
        &&& axis_in_reach(self.axis_z)
        &&& axis_in_reach(self.axis_x_rot)
        &&& axis_in_reach(self.axis_y_rot)
        &&& axis_in_reach(self.axis_z_rot)
        &&& 0 <= self.buttons <= 255
    }

    /// Makes the all-zero state of virtual device `device`.
    ///
    /// Device identifiers count from one, so zero names no device.
    pub fn new(device: u8) -> (made: Option<JoystickState>)
        ensures
            device == 0 ==> made is None,
            device >= 1 ==> made == Some(JoystickState::initial(device)),
            made matches Some(state) ==> state.wf(),
    {
        if device == 0 {
            None
        } else {
            Some(
                JoystickState {
                    device,
                    throttle: 0,
                    rudder: 0,
                    aileron: 0,
                    axis_x: 0,
                    axis_y: 0,
                    axis_z: 0,
                    axis_x_rot: 0,
                    axis_y_rot: 0,
                    axis_z_rot: 0,
                    slider: 0,
                    dial: 0,
                    wheel: 0,
                    axis_vx: 0,
                    axis_vy: 0,
                    axis_vz: 0,
                    axis_vbrx: 0,
                    axis_vbry: 0,
                    axis_vbrz: 0,
                    buttons: 0,
                    hats: 0,
                    hats_ex1: 0,
                    hats_ex2: 0,
                    hats_ex3: 0,
                    buttons_ex1: 0,
                    buttons_ex2: 0,
                    buttons_ex3: 0,
                },
            )
        }
    }
}

} // verus!
