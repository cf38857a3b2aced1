//! The composite key identity carried by keyboard events.

use vstd::prelude::*;

verus! {

/// Marker bit that distinguishes keycodes derived from a physical scancode
/// from keycodes that are literal printable character codes.
pub const SDLK_SCANCODE_MASK: i32 = 0x40000000;

/// There is no valid scancode at or above this value.
pub const SDL_NUM_SCANCODES: u32 = 512;

/// The keycode of a key that has no character representation: its scancode
/// with the scancode marker bit set. Printable keys instead use their literal
/// character code, which never carries the marker bit.
pub fn scancode_to_keycode(scancode: u32) -> (r: i32)
    requires
        scancode < SDL_NUM_SCANCODES,
    ensures
        r == (scancode as i32) | SDLK_SCANCODE_MASK,
{
    (scancode as i32) | SDLK_SCANCODE_MASK
}

/// The composite key identity: the physical key code, the logical key code,
/// and the modifier mask active when the event fired.
#[derive(Clone, Copy, Debug, PartialEq, Eq, Structural)]
pub struct SDL_Keysym {
    /// The physical key code.
    pub scancode: u32,
    /// The logical key code.
    pub sym: i32,
    /// The active modifier mask.
    pub key_mod: u16,
    pub unused: u32,
}

} // verus!
