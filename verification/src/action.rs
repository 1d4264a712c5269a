//! What the controller asks of the host in one frame, and in which order.
use vstd::prelude::*;
use bevy::input::keyboard::KeyCode;
use bevy::window::CursorGrabMode;
use crate::cursor::accepts_input_spec;
use crate::motion::{Axis, Motion};

verus! {

/// One thing for the host to do to the camera. The host carries out the
/// actions of a frame in the order in which they are listed.
#[derive(Clone, Copy, Debug, PartialEq, Eq, Structural)]
pub enum Action {
    /// Move the position by one step of the given motion, reading the look
    /// direction as it stands, and place the transform at the new position.
    Move(Motion),
    /// Turn by the mouse sample with this index, counting this frame's
    /// samples from zero in the order in which they arrived: the sample's
    /// horizontal motion lowers the pitch and its vertical motion lowers the
    /// yaw, each scaled by its own sensitivity.
    Turn(usize),
    /// Compute the look direction anew from pitch and yaw.
    RecomputeDirection,
    /// Place the transform at the position, looking along the look
    /// direction with world up as its up vector.
    Orient,
}

impl Action {
    /// Whether carrying out this action reads the look direction.
    pub open spec fn reads_direction(self) -> bool {
        match self {
            Action::Move(motion) => motion.axis_spec() != Axis::Up,
            Action::Orient => true,
            _ => false,
        }
    }

    /// Whether carrying out this action changes pitch or yaw, and so leaves
    /// the look direction out of date.
    pub open spec fn changes_angles(self) -> bool {
        self is Turn
    }

    /// Whether carrying out this action changes the camera's position.
    pub open spec fn moves_position(self) -> bool {
        self is Move
    }
}

/// Whether the look direction is up to date just before action number `k` of
/// `actions` (just after the last one, for `k` equal to their number), given
/// that it was up to date before the first: every earlier action that
/// changed the angles is followed, still before `k`, by one that computes
/// the direction anew.
pub open spec fn direction_fresh_before(actions: Seq<Action>, k: int) -> bool {
    forall|j: int|
        0 <= j < k && #[trigger] actions[j].changes_angles() ==> exists|r: int|
            j < r < k && #[trigger] actions[r] == Action::RecomputeDirection
}

/// Whether `actions` never read a stale look direction and leave a fresh one
/// behind, given that they start with a fresh one.
pub open spec fn keeps_direction_fresh(actions: Seq<Action>) -> bool {
    &&& forall|k: int|
        0 <= k < actions.len() && #[trigger] actions[k].reads_direction()
            ==> direction_fresh_before(actions, k)
    &&& direction_fresh_before(actions, actions.len() as int)
}

/// What `motion` contributes to a frame: one move if its key is among the
/// `held` keys, nothing otherwise.
pub open spec fn move_if_held(held: Set<KeyCode>, motion: Motion) -> Seq<Action> {
    if held.contains(motion.key_spec()) {
        seq![Action::Move(motion)]
    } else {
        Seq::empty()
    }
}

/// The moves of a frame. Every motion is looked at by itself, in a fixed
/// order, so that keys held together each take effect, opposite ones too.
pub open spec fn moves(held: Set<KeyCode>) -> Seq<Action> {
    move_if_held(held, Motion::Forward)
        + move_if_held(held, Motion::StrafeLeft)
        + move_if_held(held, Motion::StrafeRight)
        + move_if_held(held, Motion::Backward)
        + move_if_held(held, Motion::Ascend)
        + move_if_held(held, Motion::Descend)
}

/// The turns of a frame with `samples` mouse samples: each sample in the
/// order of arrival, each followed at once by a fresh look direction.
pub open spec fn turns(samples: nat) -> Seq<Action> {
    Seq::new(
        2 * samples,
        |i: int|
            if i % 2 == 0 {
                Action::Turn((i / 2) as usize)
            } else {
                Action::RecomputeDirection
            },
    )
}

/// What a frame asks of the host under the grab mode `mode`, with the keys
/// `held` down and `samples` mouse samples waiting. Unless the cursor is
/// locked that is nothing. While it is locked: the moves, then the turns,
/// then one more fresh look direction and the orientation of the transform.
pub open spec fn frame_actions(
    mode: CursorGrabMode,
    held: Set<KeyCode>,
    samples: nat,
) -> Seq<Action> {
    if accepts_input_spec(mode) {
        moves(held) + turns(samples) + seq![Action::RecomputeDirection, Action::Orient]
    } else {
        Seq::empty()
    }
}

} // verus!
