//! A safe, verified model of the SDL2 event layer: the tag catalog and its
//! category predicates, the fixed-size event record with its checked and
//! unchecked payload views, the stamped-event construction, and the bitflag
//! surfaces (subsystem initialisation, window state, joystick hats) that the
//! event layer shares with the rest of the binding.
//!
//! The native library itself (window management, polling, clipboard, power
//! queries) stays outside: callers poll a raw record from it and hand the
//! bytes to this crate, which interprets them without ever reading past the
//! fixed block size or exposing a payload whose tag does not match.
#![allow(non_snake_case)]
#![allow(non_camel_case_types)]

use vstd::prelude::*;

pub mod event;
pub mod events;
pub mod joystick;
pub mod keyboard;
pub mod power;
pub mod rect;
pub mod surface;
pub mod syswm;
pub mod version;
pub mod video;

verus! {

/// Initialise the timer subsystem.
pub const SDL_INIT_TIMER: u32 = 0x00000001;

/// Initialise the audio subsystem.
pub const SDL_INIT_AUDIO: u32 = 0x00000010;

/// Initialise the video subsystem.
pub const SDL_INIT_VIDEO: u32 = 0x00000020;

/// Initialise the joystick subsystem.
pub const SDL_INIT_JOYSTICK: u32 = 0x00000200;

/// Initialise the haptic subsystem.
pub const SDL_INIT_HAPTIC: u32 = 0x00001000;

/// Initialise the game controller subsystem.
pub const SDL_INIT_GAMECONTROLLER: u32 = 0x00002000;

/// Initialise the event subsystem.
pub const SDL_INIT_EVENTS: u32 = 0x00004000;

/// Don't catch fatal signals.
pub const SDL_INIT_NOPARACHUTE: u32 = 0x00100000;

/// Initialise every subsystem at once: the union of exactly the primitive
/// subsystem flags (the no-parachute bit is not a subsystem and is left out).
pub const SDL_INIT_EVERYTHING: u32 = SDL_INIT_TIMER | SDL_INIT_AUDIO | SDL_INIT_VIDEO
    | SDL_INIT_EVENTS | SDL_INIT_JOYSTICK | SDL_INIT_HAPTIC | SDL_INIT_GAMECONTROLLER;

/// A mask of subsystem initialisation flags.
#[derive(Clone, Copy, Debug, PartialEq, Eq, Structural)]
pub struct SDL_InitFlags {
    pub bits: u32,
}

/// A flag used when initialising an SDL subsystem.
pub type InitFlags = SDL_InitFlags;

impl SDL_InitFlags {
    /// The empty mask: no subsystem selected.
    pub fn empty() -> (r: SDL_InitFlags)
        ensures
            r.bits == 0,
    {
        SDL_InitFlags { bits: 0 }
    }

    /// True when every bit of `other` is set in `self`.
    pub fn contains(&self, other: SDL_InitFlags) -> (r: bool)
        ensures
            r == (self.bits & other.bits == other.bits),
    {
        self.bits & other.bits == other.bits
    }

    /// Add every bit of `other` to the mask.
    pub fn insert(&mut self, other: SDL_InitFlags)
        ensures
            final(self).bits == old(self).bits | other.bits,
    {
        self.bits = self.bits | other.bits;
    }

    /// Remove every bit of `other` from the mask.
    pub fn remove(&mut self, other: SDL_InitFlags)
        ensures
            final(self).bits == old(self).bits & !other.bits,
    {
        self.bits = self.bits & !other.bits;
    }
}

/// The composite `SDL_INIT_EVERYTHING` is the union of exactly the seven
/// primitive subsystem flags; it contains each of them and does not contain
/// the no-parachute bit.
pub proof fn lemma_init_everything_composite()
    ensures
        SDL_INIT_EVERYTHING == SDL_INIT_TIMER | SDL_INIT_AUDIO | SDL_INIT_VIDEO
            | SDL_INIT_EVENTS | SDL_INIT_JOYSTICK | SDL_INIT_HAPTIC | SDL_INIT_GAMECONTROLLER,
        SDL_INIT_EVERYTHING & SDL_INIT_TIMER == SDL_INIT_TIMER,
        SDL_INIT_EVERYTHING & SDL_INIT_AUDIO == SDL_INIT_AUDIO,
        SDL_INIT_EVERYTHING & SDL_INIT_VIDEO == SDL_INIT_VIDEO,
        SDL_INIT_EVERYTHING & SDL_INIT_EVENTS == SDL_INIT_EVENTS,
        SDL_INIT_EVERYTHING & SDL_INIT_JOYSTICK == SDL_INIT_JOYSTICK,
        SDL_INIT_EVERYTHING & SDL_INIT_HAPTIC == SDL_INIT_HAPTIC,
        SDL_INIT_EVERYTHING & SDL_INIT_GAMECONTROLLER == SDL_INIT_GAMECONTROLLER,
        SDL_INIT_EVERYTHING & SDL_INIT_NOPARACHUTE == 0,
{
    assert(SDL_INIT_EVERYTHING & SDL_INIT_TIMER == SDL_INIT_TIMER) by (bit_vector);
    assert(SDL_INIT_EVERYTHING & SDL_INIT_AUDIO == SDL_INIT_AUDIO) by (bit_vector);
    assert(SDL_INIT_EVERYTHING & SDL_INIT_VIDEO == SDL_INIT_VIDEO) by (bit_vector);
    assert(SDL_INIT_EVERYTHING & SDL_INIT_EVENTS == SDL_INIT_EVENTS) by (bit_vector);
    assert(SDL_INIT_EVERYTHING & SDL_INIT_JOYSTICK == SDL_INIT_JOYSTICK) by (bit_vector);
    assert(SDL_INIT_EVERYTHING & SDL_INIT_HAPTIC == SDL_INIT_HAPTIC) by (bit_vector);
    assert(SDL_INIT_EVERYTHING & SDL_INIT_GAMECONTROLLER == SDL_INIT_GAMECONTROLLER)
        by (bit_vector);
    assert(SDL_INIT_EVERYTHING & SDL_INIT_NOPARACHUTE == 0) by (bit_vector);
}

/// An SDL context handle. The native library keeps process-wide state behind
/// this handle; the event layer itself is stateless, so the handle carries no
/// data here. The unverified shell that talks to the native library creates
/// one after a successful global initialisation.
#[derive(Clone, Copy, Debug)]
pub struct Sdl {}

/// The native boolean, kept distinct from `bool` as in the C headers.
#[derive(Clone, Copy, Debug, PartialEq, Eq, Structural)]
pub enum SDL_bool {
    SDL_FALSE,
    SDL_TRUE,
}

impl SDL_bool {
    /// Convert to a Rust `bool`.
    pub fn to_bool(self) -> (r: bool)
        ensures
            r == (self == SDL_bool::SDL_TRUE),
    {
        match self {
            SDL_bool::SDL_TRUE => true,
            SDL_bool::SDL_FALSE => false,
        }
    }

    /// Convert from a Rust `bool`.
    pub fn from_bool(b: bool) -> (r: SDL_bool)
        ensures
            b == (r == SDL_bool::SDL_TRUE),
    {
        if b {
            SDL_bool::SDL_TRUE
        } else {
            SDL_bool::SDL_FALSE
        }
    }
}

} // verus!
