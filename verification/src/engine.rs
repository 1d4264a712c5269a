//! The engine types that the controller reads and writes, and the two
//! questions it asks of the keyboard state.
use vstd::prelude::*;

verus! {

/// How the window holds the cursor. Its three variants are visible to the
/// verifier as the engine defines them.
#[verifier::external_type_specification]
pub struct ExCursorGrabMode(bevy::window::CursorGrabMode);

/// The cursor settings of a window: visibility, grab mode and hit testing.
/// Its fields are visible to the verifier as the engine defines them.
#[verifier::external_type_specification]
pub struct ExCursorOptions(bevy::window::CursorOptions);

/// The platform's own number for a key that the engine has no name for.
#[verifier::external_type_specification]
pub struct ExNativeKeyCode(bevy::input::keyboard::NativeKeyCode);

/// The physical keys of a keyboard, as the engine names them.
#[verifier::external_type_specification]
pub struct ExKeyCode(bevy::input::keyboard::KeyCode);

/// The engine's record of which buttons are down and which went down since
/// it was last cleared. Nothing inside it is visible to the verifier.
#[verifier::external_type_specification]
#[verifier::external_body]
#[verifier::reject_recursive_types(T)]
pub struct ExButtonInput<T: Copy + Eq + std::hash::Hash + Send + Sync + 'static>(
    bevy::input::ButtonInput<T>,
);

/// The keys that `keys` records as being down.
pub uninterp spec fn held_keys(
    keys: bevy::input::ButtonInput<bevy::input::keyboard::KeyCode>,
) -> Set<bevy::input::keyboard::KeyCode>;

/// The keys that `keys` records as having gone down since the engine last
/// cleared it, whether or not they are still down.
pub uninterp spec fn just_pressed_keys(
    keys: bevy::input::ButtonInput<bevy::input::keyboard::KeyCode>,
) -> Set<bevy::input::keyboard::KeyCode>;

/// Asks `ButtonInput::pressed` whether `key` is down. That method looks the
/// key up in the set of pressed buttons and does nothing else; the contract
/// says that its answer is membership in `held_keys`.
#[verifier::external_body]
pub(crate) fn key_held(
    keys: &bevy::input::ButtonInput<bevy::input::keyboard::KeyCode>,
    key: bevy::input::keyboard::KeyCode,
) -> (held: bool)
    ensures
        held == held_keys(*keys).contains(key),
{
    keys.pressed(key)
}

/// Asks `ButtonInput::just_pressed` whether `key` went down since the last
/// clearing. That method looks the key up in the set of newly pressed
/// buttons and does nothing else; the contract says that its answer is
/// membership in `just_pressed_keys`.
#[verifier::external_body]
pub(crate) fn key_just_pressed(
    keys: &bevy::input::ButtonInput<bevy::input::keyboard::KeyCode>,
    key: bevy::input::keyboard::KeyCode,
) -> (pressed: bool)
    ensures
        pressed == just_pressed_keys(*keys).contains(key),
{
    keys.just_pressed(key)
}

} // verus!
