//! The free-fly camera's value state and the controller state machine that
//! maps raw key events to axis-aligned velocity.
//!
//! The camera's floating-point parameters are carried as `f32` bit patterns;
//! the aspect ratio is carried as the width/height pair it is derived from,
//! so that a window resize can resync it exactly.  The controller's state is
//! purely discrete: each axis is a sign in {-1, 0, +1} and the speed
//! multiplier is one of three named steps.  The host shell turns these into
//! floating-point displacement each frame; that scaling is frame-rate
//! dependent by design (no delta-time), a known limitation of the source
//! behaviour, not a bug.

use vstd::prelude::*;

use crate::words::Vec3Bits;

verus! {

/// Free-fly camera parameters, as plain values.
///
/// `eye`, `up`, `fovy`, `znear` and `zfar` hold `f32` bit patterns; the
/// aspect ratio is the exact pair `aspect_width / aspect_height` and is kept
/// equal to the presentation surface's size.
#[derive(Clone, Copy, Debug, PartialEq, Eq, Structural)]
pub struct Camera {
    pub eye: Vec3Bits,
    pub up: Vec3Bits,
    pub aspect_width: u32,
    pub aspect_height: u32,
    pub fovy: u32,
    pub znear: u32,
    pub zfar: u32,
}

/// The keys the controller reacts to.  `Other` stands for every key it
/// ignores (the event is then reported as not consumed).
#[derive(Clone, Copy, Debug, PartialEq, Eq, Structural)]
pub enum KeyCode {
    A,
    D,
    W,
    S,
    R,
    E,
    F,
    Q,
    Left,
    Right,
    Up,
    Down,
    LeftShift,
    RightShift,
    LeftAlt,
    RightAlt,
    Other,
}

/// The discrete speed multiplier: a quarter, normal, or double speed.
#[derive(Clone, Copy, Debug, PartialEq, Eq, Structural)]
pub enum SpeedMultiplier {
    Quarter,
    Normal,
    Double,
}

impl SpeedMultiplier {
    /// The multiplier's value in quarter units: 1, 4 or 8 quarters stand
    /// for 0.25, 1.0 and 2.0.
    pub open spec fn quarters_spec(self) -> int {
        match self {
            SpeedMultiplier::Quarter => 1,
            SpeedMultiplier::Normal => 4,
            SpeedMultiplier::Double => 8,
        }
    }

    /// The multiplier's value in quarter units.
    pub fn quarters(&self) -> (q: u8)
        ensures
            q == self.quarters_spec(),
    {
        match self {
            SpeedMultiplier::Quarter => 1,
            SpeedMultiplier::Normal => 4,
            SpeedMultiplier::Double => 8,
        }
    }
}

/// The sign a press of `key` writes to the x axis, or 0 if `key` does not
/// drive the x axis.
pub open spec fn x_sign(key: KeyCode) -> int {
    match key {
        KeyCode::A | KeyCode::Left => -1,
        KeyCode::D | KeyCode::Right => 1,
        _ => 0,
    }
}

/// The sign a press of `key` writes to the y axis, or 0.
pub open spec fn y_sign(key: KeyCode) -> int {
    match key {
        KeyCode::W | KeyCode::Up => 1,
        KeyCode::S | KeyCode::Down => -1,
        _ => 0,
    }
}

/// The sign a press of `key` writes to the z axis, or 0.
pub open spec fn z_sign(key: KeyCode) -> int {
    match key {
        KeyCode::R | KeyCode::E => -1,
        KeyCode::F | KeyCode::Q => 1,
        _ => 0,
    }
}

/// Whether `key` switches the speed multiplier rather than an axis.
pub open spec fn is_multiplier_key(key: KeyCode) -> bool {
    match key {
        KeyCode::LeftShift | KeyCode::RightShift | KeyCode::LeftAlt | KeyCode::RightAlt => true,
        _ => false,
    }
}

/// Maps raw key events to axis-aligned velocity state.
///
/// `speed` is the base step length as an `f32` bit pattern; each axis is a
/// sign in {-1, 0, +1}; the multiplier is a named step.  Every event
/// overwrites the state it addresses (last write wins, releases included).
#[derive(Clone, Copy, Debug, PartialEq, Eq, Structural)]
pub struct CameraController {
    pub speed: u32,
    pub x_axis: i8,
    pub y_axis: i8,
    pub z_axis: i8,
    pub speed_multiplier: SpeedMultiplier,
}

/// The controller state after one key event: the addressed axis is set to
/// the key's sign (on press) or to 0 (on release); a multiplier key sets its
/// step on press and restores normal speed on release; any other key leaves
/// the state unchanged.
pub open spec fn step_spec(c: CameraController, key: KeyCode, pressed: bool) -> CameraController {
    let sign: int = if pressed {
        1
    } else {
        0
    };
    match key {
        KeyCode::A | KeyCode::Left => CameraController { x_axis: (-sign) as i8, ..c },
        KeyCode::D | KeyCode::Right => CameraController { x_axis: sign as i8, ..c },
        KeyCode::W | KeyCode::Up => CameraController { y_axis: sign as i8, ..c },
        KeyCode::S | KeyCode::Down => CameraController { y_axis: (-sign) as i8, ..c },
        KeyCode::R | KeyCode::E => CameraController { z_axis: (-sign) as i8, ..c },
        KeyCode::F | KeyCode::Q => CameraController { z_axis: sign as i8, ..c },
        KeyCode::LeftShift | KeyCode::RightShift => CameraController {
            speed_multiplier: if pressed {
                SpeedMultiplier::Double
            } else {
                SpeedMultiplier::Normal
            },
            ..c
        },
        KeyCode::LeftAlt | KeyCode::RightAlt => CameraController {
            speed_multiplier: if pressed {
                SpeedMultiplier::Quarter
            } else {
                SpeedMultiplier::Normal
            },
            ..c
        },
        KeyCode::Other => c,
    }
}

/// Whether the controller consumes an event for `key`.
pub open spec fn consumed_spec(key: KeyCode) -> bool {
    !(key is Other)
}

impl CameraController {
    /// A controller at rest: every axis 0, normal speed, the given base
    /// step length (an `f32` bit pattern).
    pub fn new(speed: u32) -> (c: Self)
        ensures
            c == (CameraController {
                speed,
                x_axis: 0,
                y_axis: 0,
                z_axis: 0,
                speed_multiplier: SpeedMultiplier::Normal,
            }),
    {
        Self { speed, x_axis: 0, y_axis: 0, z_axis: 0, speed_multiplier: SpeedMultiplier::Normal }
    }

    /// Applies one raw key event and reports whether it was consumed.
    pub fn process_events(&mut self, key: KeyCode, pressed: bool) -> (consumed: bool)
        ensures
            *final(self) == step_spec(*old(self), key, pressed),
            consumed == consumed_spec(key),
    {
        let value: i8 = if pressed {
            1
        } else {
            0
        };
        match key {
            KeyCode::A | KeyCode::Left => {
                self.x_axis = -value;
                true
            },
            KeyCode::D | KeyCode::Right => {
                self.x_axis = value;
                true
            },
            KeyCode::W | KeyCode::Up => {
                self.y_axis = value;
                true
            },
            KeyCode::S | KeyCode::Down => {
                self.y_axis = -value;
                true
            },
            KeyCode::R | KeyCode::E => {
                self.z_axis = -value;
                true
            },
            KeyCode::F | KeyCode::Q => {
                self.z_axis = value;
                true
            },
            KeyCode::LeftShift | KeyCode::RightShift => {
                self.speed_multiplier = if pressed {
                    SpeedMultiplier::Double
                } else {
                    SpeedMultiplier::Normal
                };
                true
            },
            KeyCode::LeftAlt | KeyCode::RightAlt => {
                self.speed_multiplier = if pressed {
                    SpeedMultiplier::Quarter
                } else {
                    SpeedMultiplier::Normal
                };
                true
            },
            KeyCode::Other => false,
        }
    }

    /// The per-update velocity in quarter units of the base step: each
    /// component is the axis sign times the multiplier's quarter value.
    /// The host shell scales this by a quarter of the base step length to
    /// advance the eye.
    pub fn velocity_quarters(&self) -> (v: (i32, i32, i32))
        ensures
            v.0 == self.x_axis * self.speed_multiplier.quarters_spec(),
            v.1 == self.y_axis * self.speed_multiplier.quarters_spec(),
            v.2 == self.z_axis * self.speed_multiplier.quarters_spec(),
    {
        let q = self.speed_multiplier.quarters() as i32;
        ((self.x_axis as i32) * q, (self.y_axis as i32) * q, (self.z_axis as i32) * q)
    }
}

/// Pressing and then releasing the same key returns the state it addresses
/// to rest: the driven axis to exactly 0, a multiplier key to normal speed.
/// The other axes and the base speed are untouched by the pair of events.
pub proof fn lemma_press_then_release_restores(c: CameraController, key: KeyCode)
    ensures
        ({
            let after = step_spec(step_spec(c, key, true), key, false);
            &&& x_sign(key) != 0 ==> after.x_axis == 0
            &&& y_sign(key) != 0 ==> after.y_axis == 0
            &&& z_sign(key) != 0 ==> after.z_axis == 0
            &&& is_multiplier_key(key) ==> after.speed_multiplier == SpeedMultiplier::Normal
            &&& x_sign(key) == 0 && !is_multiplier_key(key) ==> after.x_axis == c.x_axis
            &&& y_sign(key) == 0 && !is_multiplier_key(key) ==> after.y_axis == c.y_axis
            &&& z_sign(key) == 0 && !is_multiplier_key(key) ==> after.z_axis == c.z_axis
            &&& after.speed == c.speed
        }),
{
}

/// Two presses that drive the same axis leave it at the sign of the most
/// recent press: the axis value is overwritten, never accumulated.
pub proof fn lemma_latest_press_wins(c: CameraController, first: KeyCode, second: KeyCode)
    ensures
        ({
            let after = step_spec(step_spec(c, first, true), second, true);
            &&& x_sign(first) != 0 && x_sign(second) != 0 ==> after.x_axis == x_sign(second)
            &&& y_sign(first) != 0 && y_sign(second) != 0 ==> after.y_axis == y_sign(second)
            &&& z_sign(first) != 0 && z_sign(second) != 0 ==> after.z_axis == z_sign(second)
        }),
{
}

} // verus!
