//! Joystick identifiers and the hat position mask that joystick hat events
//! carry in their value byte.

use vstd::prelude::*;

verus! {

/// The instance identifier of an opened joystick.
pub type SDL_JoystickID = i32;

/// The stable identity of a joystick model, as sixteen opaque bytes.
#[derive(Clone, Copy, Debug, PartialEq, Eq)]
pub struct SDL_JoystickGUID {
    pub data: [u8; 16],
}

pub const SDL_HAT_CENTERED: u8 = 0x00;
pub const SDL_HAT_UP: u8 = 0x01;
pub const SDL_HAT_RIGHT: u8 = 0x02;
pub const SDL_HAT_DOWN: u8 = 0x04;
pub const SDL_HAT_LEFT: u8 = 0x08;

/// Composite hat positions: each diagonal is the union of its two primitive
/// directions.
pub const SDL_HAT_RIGHTUP: u8 = SDL_HAT_RIGHT | SDL_HAT_UP;
pub const SDL_HAT_RIGHTDOWN: u8 = SDL_HAT_RIGHT | SDL_HAT_DOWN;
pub const SDL_HAT_LEFTUP: u8 = SDL_HAT_LEFT | SDL_HAT_UP;
pub const SDL_HAT_LEFTDOWN: u8 = SDL_HAT_LEFT | SDL_HAT_DOWN;

/// Each composite hat position is exactly the union of its two primitive
/// directions, and opposite primitive directions share no bit.
pub proof fn lemma_hat_composites()
    ensures
        SDL_HAT_RIGHTUP == SDL_HAT_RIGHT | SDL_HAT_UP,
        SDL_HAT_RIGHTDOWN == SDL_HAT_RIGHT | SDL_HAT_DOWN,
        SDL_HAT_LEFTUP == SDL_HAT_LEFT | SDL_HAT_UP,
        SDL_HAT_LEFTDOWN == SDL_HAT_LEFT | SDL_HAT_DOWN,
        SDL_HAT_UP & SDL_HAT_DOWN == 0,
        SDL_HAT_LEFT & SDL_HAT_RIGHT == 0,
{
    assert(SDL_HAT_UP & SDL_HAT_DOWN == 0) by (bit_vector);
    assert(SDL_HAT_LEFT & SDL_HAT_RIGHT == 0) by (bit_vector);
}

} // verus!
