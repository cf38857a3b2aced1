//! Bitflag surfaces: subsystem initialisation, window flags, hat positions.

use sdl2::joystick::{
    SDL_HAT_DOWN, SDL_HAT_LEFT, SDL_HAT_LEFTDOWN, SDL_HAT_LEFTUP, SDL_HAT_RIGHT,
    SDL_HAT_RIGHTDOWN, SDL_HAT_RIGHTUP, SDL_HAT_UP,
};
use sdl2::keyboard::{scancode_to_keycode, SDLK_SCANCODE_MASK};
use sdl2::video::{
    DisplayMode, SDL_DisplayMode, SDL_WindowEventID, WindowFlags, SDL_WINDOW_FULLSCREEN,
    SDL_WINDOW_FULLSCREEN_DESKTOP, SDL_WINDOW_MAXIMIZED, SDL_WINDOW_OPENGL, SDL_WINDOW_SHOWN,
};
use sdl2::{
    SDL_InitFlags, SDL_INIT_AUDIO, SDL_INIT_EVENTS, SDL_INIT_EVERYTHING, SDL_INIT_GAMECONTROLLER,
    SDL_INIT_HAPTIC, SDL_INIT_JOYSTICK, SDL_INIT_NOPARACHUTE, SDL_INIT_TIMER, SDL_INIT_VIDEO,
};

#[test]
fn init_everything_is_the_union_of_exactly_the_primitives() {
    let primitives = [
        SDL_INIT_TIMER,
        SDL_INIT_AUDIO,
        SDL_INIT_VIDEO,
        SDL_INIT_EVENTS,
        SDL_INIT_JOYSTICK,
        SDL_INIT_HAPTIC,
        SDL_INIT_GAMECONTROLLER,
    ];
    let union = primitives.iter().fold(0u32, |acc, &f| acc | f);
    assert_eq!(SDL_INIT_EVERYTHING, union);
    for &f in primitives.iter() {
        assert_eq!(SDL_INIT_EVERYTHING & f, f);
    }
    assert_eq!(SDL_INIT_EVERYTHING & SDL_INIT_NOPARACHUTE, 0);
}

#[test]
fn init_flag_mask_operations() {
    let mut m = SDL_InitFlags::empty();
    assert_eq!(m.bits, 0);
    m.insert(SDL_InitFlags { bits: SDL_INIT_VIDEO });
    m.insert(SDL_InitFlags { bits: SDL_INIT_EVENTS });
    assert!(m.contains(SDL_InitFlags { bits: SDL_INIT_VIDEO }));
    assert!(m.contains(SDL_InitFlags { bits: SDL_INIT_EVENTS }));
    assert!(!m.contains(SDL_InitFlags { bits: SDL_INIT_AUDIO }));
    m.remove(SDL_InitFlags { bits: SDL_INIT_VIDEO });
    assert!(!m.contains(SDL_InitFlags { bits: SDL_INIT_VIDEO }));
    assert!(m.contains(SDL_InitFlags { bits: SDL_INIT_EVENTS }));
}

#[test]
fn fullscreen_desktop_is_fullscreen_plus_its_marker_bit() {
    assert_eq!(SDL_WINDOW_FULLSCREEN_DESKTOP, SDL_WINDOW_FULLSCREEN | 0x1000);
    assert_eq!(
        SDL_WINDOW_FULLSCREEN_DESKTOP & SDL_WINDOW_FULLSCREEN,
        SDL_WINDOW_FULLSCREEN
    );
}

#[test]
fn fold_bits_ors_the_flags_in_order() {
    assert_eq!(WindowFlags::fold_bits(&vec![]), 0);
    assert_eq!(WindowFlags::fold_bits(&vec![WindowFlags::Shown]), SDL_WINDOW_SHOWN);
    assert_eq!(
        WindowFlags::fold_bits(&vec![WindowFlags::Fullscreen, WindowFlags::OpenGl]),
        SDL_WINDOW_FULLSCREEN | SDL_WINDOW_OPENGL
    );
}

#[test]
fn unfold_bits_reports_set_flags_in_catalog_order() {
    let flags = WindowFlags::unfold_bits(SDL_WINDOW_MAXIMIZED | SDL_WINDOW_SHOWN);
    assert_eq!(flags, vec![WindowFlags::Shown, WindowFlags::Maximized]);
    // The fullscreen bit also intersects the desktop-fullscreen composite, so
    // that composite is reported too, after the primitives.
    let flags = WindowFlags::unfold_bits(
        SDL_WINDOW_MAXIMIZED | SDL_WINDOW_SHOWN | SDL_WINDOW_FULLSCREEN,
    );
    assert_eq!(
        flags,
        vec![
            WindowFlags::Fullscreen,
            WindowFlags::Shown,
            WindowFlags::Maximized,
            WindowFlags::FullscreenDesktop
        ]
    );
    assert_eq!(WindowFlags::unfold_bits(0), vec![]);
}

#[test]
fn unfold_bits_reports_a_composite_when_any_of_its_bits_is_set() {
    // The desktop-fullscreen mask carries the fullscreen bit, so both the
    // primitive and the composite are reported, as the native scan does.
    let flags = WindowFlags::unfold_bits(SDL_WINDOW_FULLSCREEN_DESKTOP);
    assert_eq!(
        flags,
        vec![WindowFlags::Fullscreen, WindowFlags::FullscreenDesktop]
    );
    // The marker bit alone still intersects the composite.
    let flags = WindowFlags::unfold_bits(0x1000);
    assert_eq!(flags, vec![WindowFlags::FullscreenDesktop]);
}

#[test]
fn window_flag_bits_match_the_native_values() {
    assert_eq!(WindowFlags::Fullscreen.bits(), 0x1);
    assert_eq!(WindowFlags::OpenGl.bits(), 0x2);
    assert_eq!(WindowFlags::Shown.bits(), 0x4);
    assert_eq!(WindowFlags::FullscreenDesktop.bits(), 0x1001);
    assert_eq!(WindowFlags::Foreign.bits(), 0x800);
}

#[test]
fn hat_composites_are_unions_of_their_directions() {
    assert_eq!(SDL_HAT_RIGHTUP, SDL_HAT_RIGHT | SDL_HAT_UP);
    assert_eq!(SDL_HAT_RIGHTDOWN, SDL_HAT_RIGHT | SDL_HAT_DOWN);
    assert_eq!(SDL_HAT_LEFTUP, SDL_HAT_LEFT | SDL_HAT_UP);
    assert_eq!(SDL_HAT_LEFTDOWN, SDL_HAT_LEFT | SDL_HAT_DOWN);
    assert_eq!(SDL_HAT_UP & SDL_HAT_DOWN, 0);
    assert_eq!(SDL_HAT_LEFT & SDL_HAT_RIGHT, 0);
}

#[test]
fn derived_keycodes_carry_the_scancode_marker() {
    // The caps-lock key has scancode 57 and no printable representation.
    assert_eq!(scancode_to_keycode(57), 57 | SDLK_SCANCODE_MASK);
    assert_eq!(scancode_to_keycode(57), 0x40000039);
}

#[test]
fn window_sub_events_decode_from_their_byte() {
    assert_eq!(
        SDL_WindowEventID::from_byte(0),
        Some(SDL_WindowEventID::SDL_WINDOWEVENT_NONE)
    );
    assert_eq!(
        SDL_WindowEventID::from_byte(5),
        Some(SDL_WindowEventID::SDL_WINDOWEVENT_RESIZED)
    );
    assert_eq!(
        SDL_WindowEventID::from_byte(14),
        Some(SDL_WindowEventID::SDL_WINDOWEVENT_CLOSE)
    );
    assert_eq!(SDL_WindowEventID::from_byte(15), None);
    assert_eq!(SDL_WindowEventID::from_byte(200), None);
}

#[test]
fn display_mode_wrap_unwrap_round_trip() {
    let native = SDL_DisplayMode { format: 0x16161804, w: 1920, h: 1080, refresh_rate: 60, driverdata: 0 };
    let mode = DisplayMode::wrap(&native);
    assert_eq!(mode.w, 1920);
    assert_eq!(mode.h, 1080);
    assert_eq!(mode.refresh_rate, 60);
    assert_eq!(mode.unwrap(), native);
}
