//! The host's button and key state, read through `bevy`'s `Input` resource.
//!
//! `Input<T>` keeps three sets: the inputs that are held, those that went
//! down during the current frame and those that came up during it. The viewer
//! recognises two pointer buttons and one key; the sets are modelled over
//! those alone.

use bevy::input::keyboard::KeyCode;
use bevy::input::mouse::MouseButton;
use bevy::input::Input;
use std::hash::Hash;
use vstd::prelude::*;

verus! {

/// `bevy::input::Input`, carried as an opaque value.
#[verifier::external_type_specification]
#[verifier::external_body]
#[verifier::reject_recursive_types(T)]
pub struct ExInput<T: Copy + Eq + Hash + Send + Sync + 'static>(Input<T>);

/// `bevy::input::mouse::MouseButton`, carried as an opaque value.
#[verifier::external_type_specification]
#[verifier::external_body]
pub struct ExMouseButton(MouseButton);

/// `bevy::input::keyboard::KeyCode`, carried as an opaque value.
#[verifier::external_type_specification]
#[verifier::external_body]
pub struct ExKeyCode(KeyCode);

/// A pointer button that the viewer recognises.
#[derive(Clone, Copy, Debug, PartialEq, Eq)]
pub enum PointerButton {
    /// The orbit button: the host's left mouse button.
    Primary,
    /// The pan button: the host's right mouse button.
    Secondary,
}

/// A key that the viewer recognises.
#[derive(Clone, Copy, Debug, PartialEq, Eq)]
pub enum ControlKey {
    /// The cancel key: the host's escape key.
    Cancel,
}

/// The recognised buttons that `input` holds as pressed.
pub uninterp spec fn held_buttons(input: Input<MouseButton>) -> Set<PointerButton>;

/// The recognised buttons that `input` holds as pressed during this frame.
pub uninterp spec fn pressed_buttons(input: Input<MouseButton>) -> Set<PointerButton>;

/// The recognised buttons that `input` holds as released during this frame.
pub uninterp spec fn released_buttons(input: Input<MouseButton>) -> Set<PointerButton>;

/// The recognised keys that `input` holds as pressed during this frame.
pub uninterp spec fn pressed_keys(input: Input<KeyCode>) -> Set<ControlKey>;

/// Calls `Input::pressed` with the host's button for `button`. Trusted: the
/// result is membership of that button in the set of held buttons.
#[verifier::external_body]
pub(crate) fn button_held(input: &Input<MouseButton>, button: PointerButton) -> (held: bool)
    ensures
        held == held_buttons(*input).contains(button),
{
    input.pressed(match button {
        PointerButton::Primary => MouseButton::Left,
        PointerButton::Secondary => MouseButton::Right,
    })
}

/// Calls `Input::just_pressed` with the host's button for `button`. Trusted:
/// the result is membership of that button in the set of buttons that went
/// down during this frame.
#[verifier::external_body]
pub(crate) fn button_just_pressed(input: &Input<MouseButton>, button: PointerButton) -> (pressed:
    bool)
    ensures
        pressed == pressed_buttons(*input).contains(button),
{
    input.just_pressed(match button {
        PointerButton::Primary => MouseButton::Left,
        PointerButton::Secondary => MouseButton::Right,
    })
}

/// Calls `Input::just_released` with the host's button for `button`. Trusted:
/// the result is membership of that button in the set of buttons that came up
/// during this frame.
#[verifier::external_body]
pub(crate) fn button_just_released(input: &Input<MouseButton>, button: PointerButton) -> (released:
    bool)
    ensures
        released == released_buttons(*input).contains(button),
{
    input.just_released(match button {
        PointerButton::Primary => MouseButton::Left,
        PointerButton::Secondary => MouseButton::Right,
    })
}

/// Calls `Input::just_pressed` with the host's key for `key`. Trusted: the
/// result is membership of that key in the set of keys that went down during
/// this frame.
#[verifier::external_body]
pub(crate) fn key_just_pressed(input: &Input<KeyCode>, key: ControlKey) -> (pressed: bool)
    ensures
        pressed == pressed_keys(*input).contains(key),
{
    input.just_pressed(match key {
        ControlKey::Cancel => KeyCode::Escape,
    })
}

/// What one frame of pointer handling reads of the buttons.
#[derive(Clone, Copy, Debug, PartialEq, Eq)]
pub struct PointerButtons {
    /// The primary button is down.
    pub primary_held: bool,
    /// The secondary button is down.
    pub secondary_held: bool,
    /// The primary button went down during this frame.
    pub primary_just_pressed: bool,
    /// The primary button came up during this frame.
    pub primary_just_released: bool,
}

/// The button state that `input` holds.
pub open spec fn pointer_buttons_of(input: Input<MouseButton>) -> PointerButtons {
    PointerButtons {
        primary_held: held_buttons(input).contains(PointerButton::Primary),
        secondary_held: held_buttons(input).contains(PointerButton::Secondary),
        primary_just_pressed: pressed_buttons(input).contains(PointerButton::Primary),
        primary_just_released: released_buttons(input).contains(PointerButton::Primary),
    }
}

/// Reads from the host's button state what pointer handling needs.
pub fn read_pointer_buttons(input: &Input<MouseButton>) -> (buttons: PointerButtons)
    ensures
        buttons == pointer_buttons_of(*input),
{
    PointerButtons {
        primary_held: button_held(input, PointerButton::Primary),
        secondary_held: button_held(input, PointerButton::Secondary),
        primary_just_pressed: button_just_pressed(input, PointerButton::Primary),
        primary_just_released: button_just_released(input, PointerButton::Primary),
    }
}

} // verus!
