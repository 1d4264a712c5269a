//! The per-frame procedure of the camera controller.
use vstd::prelude::*;
use bevy::input::keyboard::KeyCode;
use bevy::input::ButtonInput;
use bevy::window::CursorOptions;
use crate::action::{frame_actions, keeps_direction_fresh, move_if_held, moves, turns, Action};
use crate::cursor::{accepts_input, cursor_after_frame, lock_key, toggle_cursor_lock};
use crate::engine::{held_keys, just_pressed_keys, key_held, key_just_pressed};
use crate::laws::frame_keeps_direction_fresh;
use crate::motion::Motion;

verus! {

/// Appends the move of `motion` to `actions` if its key is down.
fn push_if_held(actions: &mut Vec<Action>, keys: &ButtonInput<KeyCode>, motion: Motion)
    ensures
        final(actions)@ == old(actions)@ + move_if_held(held_keys(*keys), motion),
{
    if key_held(keys, motion.key()) {
        actions.push(Action::Move(motion));
    }
}

/// Appends one turn for each of `samples` mouse samples to `actions`, in the
/// order of arrival, each followed by a fresh look direction.
fn push_turns(actions: &mut Vec<Action>, samples: usize)
    ensures
        final(actions)@ == old(actions)@ + turns(samples as nat),
{
    let mut i: usize = 0;
    while i < samples
        invariant
            i <= samples,
            actions@ == old(actions)@ + turns(i as nat),
        decreases samples - i,
    {
        actions.push(Action::Turn(i));
        actions.push(Action::RecomputeDirection);
        i += 1;
    }
}

/// Runs one frame of the controller.
///
/// If the lock key went down since the last frame, the cursor lock is
/// flipped first, whatever else is going on. The result lists what the host
/// has to do to the camera this frame, in order; it is empty unless the
/// cursor is locked after that flip, and it never has the host read a look
/// direction that is out of date. `mouse_samples` is the number of mouse
/// motion samples that arrived since the last frame.
pub fn update(
    cursor: &mut CursorOptions,
    keys: &ButtonInput<KeyCode>,
    mouse_samples: usize,
) -> (actions: Vec<Action>)
    ensures
        *final(cursor) == cursor_after_frame(*old(cursor), just_pressed_keys(*keys)),
        actions@ == frame_actions(
            final(cursor).grab_mode,
            held_keys(*keys),
            mouse_samples as nat,
        ),
        !accepts_input(final(cursor).grab_mode) ==> actions@.len() == 0,
        keeps_direction_fresh(actions@),
{
    if key_just_pressed(keys, lock_key()) {
        toggle_cursor_lock(cursor);
    }
    let mut actions: Vec<Action> = Vec::new();
    if accepts_input(cursor.grab_mode) {
        push_if_held(&mut actions, keys, Motion::Forward);
        push_if_held(&mut actions, keys, Motion::StrafeLeft);
        push_if_held(&mut actions, keys, Motion::StrafeRight);
        push_if_held(&mut actions, keys, Motion::Backward);
        push_if_held(&mut actions, keys, Motion::Ascend);
        push_if_held(&mut actions, keys, Motion::Descend);
        assert(actions@ == moves(held_keys(*keys)));
        push_turns(&mut actions, mouse_samples);
        actions.push(Action::RecomputeDirection);
        actions.push(Action::Orient);
    }
    proof {
        let listed = frame_actions(cursor.grab_mode, held_keys(*keys), mouse_samples as nat);
        assert(actions@ =~= listed);
        frame_keeps_direction_fresh(cursor.grab_mode, held_keys(*keys), mouse_samples as nat);
    }
    actions
}

} // verus!
