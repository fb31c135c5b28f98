//! What the keys of the puppet window do.
use vstd::prelude::*;

verus! {

/// The keys that the puppet window reacts to; every other key is `Other`.
#[derive(Debug, Clone, Copy, PartialEq, Eq, Structural)]
pub enum Key {
    B,
    C,
    Space,
    Other,
}

/// What a key press asks for.
#[derive(Debug, Clone, Copy, PartialEq, Eq, Structural)]
pub enum KeyAction {
    /// Ask the tracker to calibrate.
    Calibrate,
    /// Put the camera back where it started.
    ResetCamera,
    /// Show or hide the interface elements.
    ToggleInterface,
}

/// The action of a key press: `B` calibrates the tracker, `C` resets the camera, the
/// space bar toggles the interface, and other keys do nothing.
pub fn key_action(key: Key) -> (action: Option<KeyAction>)
    ensures
        key == Key::B ==> action == Some(KeyAction::Calibrate),
        key == Key::C ==> action == Some(KeyAction::ResetCamera),
        key == Key::Space ==> action == Some(KeyAction::ToggleInterface),
        key == Key::Other ==> action is None,
{
    match key {
        Key::B => Some(KeyAction::Calibrate),
        Key::C => Some(KeyAction::ResetCamera),
        Key::Space => Some(KeyAction::ToggleInterface),
        Key::Other => None,
    }
}

} // verus!
