//! The version triple reported by the native library.

use vstd::prelude::*;

verus! {

/// A version of the native library: major, minor, patch.
#[derive(Clone, Copy, Debug, PartialEq, Eq, Structural)]
pub struct SDL_version {
    pub major: u8,
    pub minor: u8,
    pub patch: u8,
}

} // verus!
