//! The window-system kinds a system-specific event may originate from.

use vstd::prelude::*;

verus! {

/// The windowing subsystem that produced a system-specific message.
#[derive(Clone, Copy, Debug, PartialEq, Eq, Structural)]
pub enum SDL_SYSWM_TYPE {
    SDL_SYSWM_UNKNOWN,
    SDL_SYSWM_WINDOWS,
    SDL_SYSWM_X11,
    SDL_SYSWM_DIRECTFB,
    SDL_SYSWM_COCOA,
    SDL_SYSWM_UIKIT,
}

} // verus!
