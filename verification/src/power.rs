//! The power supply states, and the interpretation of the raw counters the
//! native power query fills in.

use vstd::prelude::*;

verus! {

/// An enum describing the power state.
#[derive(Clone, Copy, Debug, PartialEq, Eq, Structural)]
pub enum SDL_PowerState {
    /// Cannot determine the power status.
    SDL_POWERSTATE_UNKNOWN,
    /// Not plugged in and running on the battery.
    SDL_POWERSTATE_ON_BATTERY,
    /// Plugged in but no battery is available.
    SDL_POWERSTATE_NO_BATTERY,
    /// Plugged in and charging the battery.
    SDL_POWERSTATE_CHARGING,
    /// Plugged in and the battery is charged.
    SDL_POWERSTATE_CHARGED,
}

/// The power state, under the binding's own name.
pub type State = SDL_PowerState;

/// Interpret the outcome of the native power query: the state passes through
/// unchanged, and each counter (seconds of battery left, percent charged) is
/// present exactly when the native library reported it, a negative value
/// being its not-available sentinel.
pub fn info_from_raw(state: SDL_PowerState, secs: i32, percent: i32) -> (r: (
    SDL_PowerState,
    Option<u32>,
    Option<u32>,
))
    ensures
        r.0 == state,
        r.1 == (if secs < 0 {
            Option::<u32>::None
        } else {
            Option::Some(secs as u32)
        }),
        r.2 == (if percent < 0 {
            Option::<u32>::None
        } else {
            Option::Some(percent as u32)
        }),
{
    let secs_out: Option<u32> = if secs < 0 {
        None
    } else {
        Some(secs as u32)
    };
    let percent_out: Option<u32> = if percent < 0 {
        None
    } else {
        Some(percent as u32)
    };
    (state, secs_out, percent_out)
}

} // verus!
