//! What holds of every frame, whatever the keys and the mouse did.
use vstd::prelude::*;
use bevy::input::keyboard::KeyCode;
use bevy::window::{CursorGrabMode, CursorOptions};
use crate::action::{
    direction_fresh_before, frame_actions, keeps_direction_fresh, move_if_held, moves, turns,
    Action,
};
use crate::cursor::{cursor_after_frame, cursor_after_frames, flipped_mode, lock_key_spec};
use crate::motion::Motion;

verus! {

/// Flipping the cursor lock twice gives back the grab mode it started from.
pub proof fn flip_twice_restores_mode(mode: CursorGrabMode)
    ensures
        flipped_mode(flipped_mode(mode)) == mode,
{
}

/// Two frames in a row in which the lock key went down leave the grab mode
/// and the hit testing of the cursor as they were, and leave the cursor
/// shown exactly if it is not locked, unless it is confined.
pub proof fn two_lock_presses_restore_mode(
    cursor: CursorOptions,
    first: Set<KeyCode>,
    second: Set<KeyCode>,
)
    requires
        first.contains(lock_key_spec()),
        second.contains(lock_key_spec()),
    ensures
        cursor_after_frame(cursor_after_frame(cursor, first), second).grab_mode
            == cursor.grab_mode,
        cursor_after_frame(cursor_after_frame(cursor, first), second).hit_test == cursor.hit_test,
        cursor.grab_mode != CursorGrabMode::Confined ==> cursor_after_frame(
            cursor_after_frame(cursor, first),
            second,
        ).visible == (cursor.grab_mode == CursorGrabMode::None),
        cursor.grab_mode == CursorGrabMode::Confined ==> cursor_after_frame(
            cursor_after_frame(cursor, first),
            second,
        ) == cursor,
{
}

/// The lock answers to the press alone: a frame in which the lock key did
/// not go down leaves the cursor options as they were, whichever keys are
/// held.
pub proof fn held_lock_key_changes_nothing(cursor: CursorOptions, pressed: Set<KeyCode>)
    requires
        !pressed.contains(lock_key_spec()),
    ensures
        cursor_after_frame(cursor, pressed) == cursor,
{
}

/// However many frames pass, the cursor options stay as they are while the
/// lock key does not go down.
pub proof fn cursor_kept_without_lock_press(cursor: CursorOptions, pressed: Seq<Set<KeyCode>>)
    requires
        forall|i: int| 0 <= i < pressed.len() ==> !(#[trigger] pressed[i]).contains(lock_key_spec()),
    ensures
        cursor_after_frames(cursor, pressed) == cursor,
    decreases pressed.len(),
{
    if pressed.len() > 0 {
        cursor_kept_without_lock_press(cursor, pressed.drop_last());
    }
}

/// A camera whose cursor is not locked asks nothing of the host in any later
/// frame either, until the lock key goes down.
pub proof fn unlocked_camera_stays_deaf(
    cursor: CursorOptions,
    pressed: Seq<Set<KeyCode>>,
    held: Set<KeyCode>,
    samples: nat,
)
    requires
        cursor.grab_mode != CursorGrabMode::Locked,
        forall|i: int| 0 <= i < pressed.len() ==> !(#[trigger] pressed[i]).contains(lock_key_spec()),
    ensures
        frame_actions(cursor_after_frames(cursor, pressed).grab_mode, held, samples)
            == Seq::<Action>::empty(),
{
    cursor_kept_without_lock_press(cursor, pressed);
}

/// Unless the cursor is locked a frame asks nothing of the host, whichever
/// keys are held and however many mouse samples wait: position, pitch and
/// yaw stay as they are.
pub proof fn nothing_asked_unless_locked(mode: CursorGrabMode, held: Set<KeyCode>, samples: nat)
    requires
        mode != CursorGrabMode::Locked,
    ensures
        frame_actions(mode, held, samples) == Seq::<Action>::empty(),
        forall|k: int|
            0 <= k < frame_actions(mode, held, samples).len() ==> {
                &&& !(#[trigger] frame_actions(mode, held, samples)[k]).moves_position()
                &&& !frame_actions(mode, held, samples)[k].changes_angles()
            },
{
}

/// The moves of a frame are at most six, and each of them is a move.
pub proof fn moves_only_move(held: Set<KeyCode>)
    ensures
        moves(held).len() <= 6,
        forall|k: int| 0 <= k < moves(held).len() ==> (#[trigger] moves(held)[k]) is Move,
{
}

/// An action is in a concatenation exactly if it is in one of its parts.
proof fn contains_of_concat(front: Seq<Action>, back: Seq<Action>, action: Action)
    ensures
        (front + back).contains(action) <==> front.contains(action) || back.contains(action),
{
    if front.contains(action) {
        let k = choose|k: int| 0 <= k < front.len() && front[k] == action;
        assert((front + back)[k] == action);
    }
    if back.contains(action) {
        let k = choose|k: int| 0 <= k < back.len() && back[k] == action;
        assert((front + back)[front.len() + k] == action);
    }
    if (front + back).contains(action) {
        let k = choose|k: int| 0 <= k < (front + back).len() && (front + back)[k] == action;
        if k < front.len() {
            assert(front[k] == action);
        } else {
            assert(back[k - front.len()] == action);
        }
    }
}

/// What one motion contributes holds the move of another only if the two
/// are the same motion and its key is held.
proof fn contains_of_step(held: Set<KeyCode>, listed: Motion, motion: Motion)
    ensures
        move_if_held(held, listed).contains(Action::Move(motion)) <==> listed == motion
            && held.contains(motion.key_spec()),
{
    let step = move_if_held(held, listed);
    if listed == motion && held.contains(motion.key_spec()) {
        assert(step[0] == Action::Move(motion));
    }
    if step.contains(Action::Move(motion)) {
        let k = choose|k: int| 0 <= k < step.len() && step[k] == Action::Move(motion);
        assert(step[k] == Action::Move(listed));
    }
}

/// A motion is among the moves of a frame exactly if its key is held, so
/// keys held together each take effect.
pub proof fn move_listed_iff_held(held: Set<KeyCode>, motion: Motion)
    ensures
        moves(held).contains(Action::Move(motion)) <==> held.contains(motion.key_spec()),
{
    let a = Action::Move(motion);
    let f = move_if_held(held, Motion::Forward);
    let l = move_if_held(held, Motion::StrafeLeft);
    let r = move_if_held(held, Motion::StrafeRight);
    let b = move_if_held(held, Motion::Backward);
    let u = move_if_held(held, Motion::Ascend);
    let d = move_if_held(held, Motion::Descend);
    contains_of_step(held, Motion::Forward, motion);
    contains_of_step(held, Motion::StrafeLeft, motion);
    contains_of_step(held, Motion::StrafeRight, motion);
    contains_of_step(held, Motion::Backward, motion);
    contains_of_step(held, Motion::Ascend, motion);
    contains_of_step(held, Motion::Descend, motion);
    contains_of_concat(f, l, a);
    contains_of_concat(f + l, r, a);
    contains_of_concat(f + l + r, b, a);
    contains_of_concat(f + l + r + b, u, a);
    contains_of_concat(f + l + r + b + u, d, a);
}

/// In the turns of a frame the samples come in the order of arrival, and
/// each is followed at once by a fresh look direction.
pub proof fn turns_in_arrival_order(samples: nat, n: int)
    requires
        0 <= n < samples,
        samples <= usize::MAX,
    ensures
        turns(samples).len() == 2 * samples,
        turns(samples)[2 * n] == Action::Turn(n as usize),
        turns(samples)[2 * n + 1] == Action::RecomputeDirection,
{
}

/// In a frame every turn is followed at once by a fresh look direction,
/// and that well before the frame's last action.
proof fn recompute_follows_turn(mode: CursorGrabMode, held: Set<KeyCode>, samples: nat, j: int)
    requires
        0 <= j < frame_actions(mode, held, samples).len(),
        frame_actions(mode, held, samples)[j].changes_angles(),
    ensures
        moves(held).len() <= j,
        j + 2 < frame_actions(mode, held, samples).len(),
        frame_actions(mode, held, samples)[j + 1] == Action::RecomputeDirection,
{
    let actions = frame_actions(mode, held, samples);
    let t = moves(held).len() as int;
    moves_only_move(held);
    if j < t {
        assert(actions[j] == moves(held)[j]);
    } else if j < t + 2 * samples {
        assert(actions[j] == turns(samples)[j - t]);
        assert(actions[j + 1] == turns(samples)[j + 1 - t]);
    } else {
        assert(actions[j] == seq![Action::RecomputeDirection, Action::Orient][j - t - 2 * samples]);
    }
}

/// A frame never reads a look direction that is out of date, and it leaves
/// an up-to-date one to the next frame.
pub proof fn frame_keeps_direction_fresh(mode: CursorGrabMode, held: Set<KeyCode>, samples: nat)
    ensures
        keeps_direction_fresh(frame_actions(mode, held, samples)),
{
    let actions = frame_actions(mode, held, samples);
    let t = moves(held).len() as int;
    let end = actions.len() as int;
    // Before the first turn and from the last action on, every turn so far
    // has its fresh direction behind it.
    assert forall|k: int|
        0 <= k <= end && (k <= t || k >= end - 1) implies direction_fresh_before(actions, k) by {
        assert forall|j: int| 0 <= j < k && #[trigger] actions[j].changes_angles() implies (exists|
            r: int|
            j < r < k && #[trigger] actions[r] == Action::RecomputeDirection) by {
            recompute_follows_turn(mode, held, samples, j);
            assert(actions[j + 1] == Action::RecomputeDirection);
        }
    }
    // The direction is read nowhere else.
    assert forall|k: int|
        0 <= k < actions.len() && #[trigger] actions[k].reads_direction() implies (k <= t || k
            >= end - 1) by {
        if t <= k < t + 2 * samples {
            assert(actions[k] == turns(samples)[k - t]);
        } else if k == end - 2 {
            assert(actions[k] == seq![Action::RecomputeDirection, Action::Orient][0]);
        }
    }
}

} // verus!
