//! The six ways a key can move the camera, and the key bound to each.
use vstd::prelude::*;
use bevy::input::keyboard::KeyCode;

verus! {

/// A line along which the camera is moved.
#[derive(Clone, Copy, Debug, PartialEq, Eq, Structural)]
pub enum Axis {
    /// The camera's look direction.
    Look,
    /// The normalized cross product of the look direction and world up.
    Side,
    /// World up.
    Up,
}

/// One step of camera movement. A step displaces the position by the unit
/// vector of its axis, scaled by the camera's speed, with the sign of the
/// step.
#[derive(Clone, Copy, Debug, PartialEq, Eq, Structural)]
pub enum Motion {
    Forward,
    StrafeLeft,
    StrafeRight,
    Backward,
    Ascend,
    Descend,
}

impl Motion {
    /// The key that asks for this step while it is held.
    pub open spec fn key_spec(self) -> KeyCode {
        match self {
            Motion::Forward => KeyCode::KeyW,
            Motion::StrafeLeft => KeyCode::KeyA,
            Motion::StrafeRight => KeyCode::KeyD,
            Motion::Backward => KeyCode::KeyS,
            Motion::Ascend => KeyCode::Space,
            Motion::Descend => KeyCode::ShiftLeft,
        }
    }

    /// The axis along which this step moves.
    pub open spec fn axis_spec(self) -> Axis {
        match self {
            Motion::Forward | Motion::Backward => Axis::Look,
            Motion::StrafeLeft | Motion::StrafeRight => Axis::Side,
            Motion::Ascend | Motion::Descend => Axis::Up,
        }
    }

    /// Whether this step adds its axis to the position; the others subtract
    /// it.
    pub open spec fn adds_spec(self) -> bool {
        self == Motion::Forward || self == Motion::StrafeRight || self == Motion::Ascend
    }

    /// The key that asks for this step while it is held.
    #[verifier::when_used_as_spec(key_spec)]
    pub fn key(self) -> (key: KeyCode)
        ensures
            key == self.key_spec(),
    {
        match self {
            Motion::Forward => KeyCode::KeyW,
            Motion::StrafeLeft => KeyCode::KeyA,
            Motion::StrafeRight => KeyCode::KeyD,
            Motion::Backward => KeyCode::KeyS,
            Motion::Ascend => KeyCode::Space,
            Motion::Descend => KeyCode::ShiftLeft,
        }
    }

    /// The axis along which this step moves.
    #[verifier::when_used_as_spec(axis_spec)]
    pub fn axis(self) -> (axis: Axis)
        ensures
            axis == self.axis_spec(),
    {
        match self {
            Motion::Forward | Motion::Backward => Axis::Look,
            Motion::StrafeLeft | Motion::StrafeRight => Axis::Side,
            Motion::Ascend | Motion::Descend => Axis::Up,
        }
    }

    /// Whether this step adds its axis to the position; the others subtract
    /// it.
    #[verifier::when_used_as_spec(adds_spec)]
    pub fn adds(self) -> (adds: bool)
        ensures
            adds == self.adds_spec(),
    {
        match self {
            Motion::Forward | Motion::StrafeRight | Motion::Ascend => true,
            Motion::StrafeLeft | Motion::Backward | Motion::Descend => false,
        }
    }
}

} // verus!
