//! The part of the game's context that the backend writes.

use vstd::prelude::*;

use crate::framework::keyboard::KeyboardContext;

verus! {

/// The size of the screen and the state of the keyboard.
pub struct Context {
    /// Width and height of the window in pixels, neither of them zero.
    pub screen_size: (u32, u32),
    pub keyboard_context: KeyboardContext,
}

} // verus!
