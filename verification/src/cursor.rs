//! The cursor lock: the one piece of state that decides whether the camera
//! listens to input at all.
use vstd::prelude::*;
use bevy::input::keyboard::KeyCode;
use bevy::window::{CursorGrabMode, CursorOptions};

verus! {

/// The key whose press flips the cursor lock.
pub open spec fn lock_key_spec() -> KeyCode {
    KeyCode::Escape
}

/// The key whose press flips the cursor lock.
#[verifier::when_used_as_spec(lock_key_spec)]
pub fn lock_key() -> (key: KeyCode)
    ensures
        key == lock_key_spec(),
{
    KeyCode::Escape
}

/// Whether the camera listens to movement keys and mouse motion under
/// `mode`: only while the cursor is locked.
pub open spec fn accepts_input_spec(mode: CursorGrabMode) -> bool {
    mode == CursorGrabMode::Locked
}

/// Whether the camera listens to movement keys and mouse motion under
/// `mode`: only while the cursor is locked.
#[verifier::when_used_as_spec(accepts_input_spec)]
pub fn accepts_input(mode: CursorGrabMode) -> (listening: bool)
    ensures
        listening == accepts_input_spec(mode),
{
    match mode {
        CursorGrabMode::Locked => true,
        CursorGrabMode::None => false,
        CursorGrabMode::Confined => false,
    }
}

/// The grab mode after one flip of the lock. A free cursor becomes locked
/// and a locked one free; a confined cursor is not the controller's to
/// change and stays confined.
pub open spec fn flipped_mode(mode: CursorGrabMode) -> CursorGrabMode {
    match mode {
        CursorGrabMode::None => CursorGrabMode::Locked,
        CursorGrabMode::Locked => CursorGrabMode::None,
        CursorGrabMode::Confined => CursorGrabMode::Confined,
    }
}

/// The cursor options after one flip of the lock: the grab mode flips, a
/// cursor that became locked is hidden, one that became free is shown, and
/// nothing else changes.
pub open spec fn flipped(cursor: CursorOptions) -> CursorOptions {
    match cursor.grab_mode {
        CursorGrabMode::None => (CursorOptions {
            visible: false,
            grab_mode: CursorGrabMode::Locked,
            hit_test: cursor.hit_test,
        }),
        CursorGrabMode::Locked => (CursorOptions {
            visible: true,
            grab_mode: CursorGrabMode::None,
            hit_test: cursor.hit_test,
        }),
        CursorGrabMode::Confined => cursor,
    }
}

/// The cursor options at the end of a frame in which the keys of `pressed`
/// went down: flipped if the lock key is among them, untouched otherwise.
pub open spec fn cursor_after_frame(cursor: CursorOptions, pressed: Set<KeyCode>) -> CursorOptions {
    if pressed.contains(lock_key_spec()) {
        flipped(cursor)
    } else {
        cursor
    }
}

/// The cursor options after a run of frames, `pressed` holding for each
/// frame in turn the keys that went down in it.
pub open spec fn cursor_after_frames(
    cursor: CursorOptions,
    pressed: Seq<Set<KeyCode>>,
) -> CursorOptions
    decreases pressed.len(),
{
    if pressed.len() == 0 {
        cursor
    } else {
        cursor_after_frame(cursor_after_frames(cursor, pressed.drop_last()), pressed.last())
    }
}

/// Flips the cursor lock: locks and hides a free cursor, frees and shows a
/// locked one, and leaves a confined one alone.
pub fn toggle_cursor_lock(cursor: &mut CursorOptions)
    ensures
        *final(cursor) == flipped(*old(cursor)),
        final(cursor).grab_mode == flipped_mode(old(cursor).grab_mode),
{
    match cursor.grab_mode {
        CursorGrabMode::None => {
            cursor.grab_mode = CursorGrabMode::Locked;
            cursor.visible = false;
        },
        CursorGrabMode::Locked => {
            cursor.grab_mode = CursorGrabMode::None;
            cursor.visible = true;
        },
        CursorGrabMode::Confined => {},
    }
}

} // verus!
