//! Rectangles, surfaces, power interpretation, and the small value types.

use sdl2::power::{info_from_raw, SDL_PowerState};
use sdl2::rect::{Point, Rect, SDL_Point, SDL_Rect, SDL_RectEmpty, SDL_RectEquals};
use sdl2::surface::SDL_Surface;
use sdl2::version::SDL_version;
use sdl2::SDL_bool;

#[test]
fn rect_is_empty_without_positive_extent() {
    let flat = SDL_Rect { x: 1, y: 2, w: 0, h: 5 };
    let thin = SDL_Rect { x: 1, y: 2, w: 5, h: -1 };
    let real = SDL_Rect { x: 1, y: 2, w: 5, h: 5 };
    assert_eq!(SDL_RectEmpty(&flat), SDL_bool::SDL_TRUE);
    assert_eq!(SDL_RectEmpty(&thin), SDL_bool::SDL_TRUE);
    assert_eq!(SDL_RectEmpty(&real), SDL_bool::SDL_FALSE);
}

#[test]
fn rect_equality_compares_all_fields() {
    let a = SDL_Rect { x: 1, y: 2, w: 3, h: 4 };
    let b = SDL_Rect { x: 1, y: 2, w: 3, h: 4 };
    let c = SDL_Rect { x: 1, y: 2, w: 3, h: 5 };
    assert_eq!(SDL_RectEquals(&a, &b), SDL_bool::SDL_TRUE);
    assert_eq!(SDL_RectEquals(&a, &c), SDL_bool::SDL_FALSE);
}

#[test]
fn library_rect_converts_to_and_from_native() {
    let r = Rect { x: 50, y: 60, w: 200, h: 210 };
    let native = r.as_sdl_rect();
    assert_eq!(native, SDL_Rect { x: 50, y: 60, w: 200, h: 210 });
    assert_eq!(Rect::wrap(&native), r);
    let p = Point { x: -4, y: 9 };
    let np = p.as_sdl_point();
    assert_eq!((np.x, np.y), (-4, 9));
}

#[test]
fn the_empty_rect_is_empty() {
    let e = Rect::empty();
    assert_eq!(e, Rect { x: 0, y: 0, w: 0, h: 0 });
    assert!(e.is_empty());
    assert!(!Rect { x: 0, y: 0, w: 1, h: 1 }.is_empty());
}

#[test]
fn surface_getters_return_what_was_stored() {
    let clip = SDL_Rect { x: 0, y: 0, w: 640, h: 480 };
    let s = SDL_Surface::new(0x2, 640, 480, 2560, 0xDEAD, 0, 0, 0, clip);
    assert_eq!(s.get_flags(), 0x2);
    assert_eq!(s.get_w(), 640);
    assert_eq!(s.get_h(), 480);
    assert_eq!(s.get_pitch(), 2560);
    assert_eq!(s.get_locked(), 0);
    assert_eq!(s.get_lock_data(), 0);
    assert_eq!(s.get_clip_rect(), clip);
    assert_eq!(s.pixels, 0xDEAD);
}

#[test]
fn power_info_passes_the_state_through() {
    let (state, secs, pct) = info_from_raw(SDL_PowerState::SDL_POWERSTATE_CHARGING, 120, 80);
    assert_eq!(state, SDL_PowerState::SDL_POWERSTATE_CHARGING);
    assert_eq!(secs, Some(120));
    assert_eq!(pct, Some(80));
}

#[test]
fn power_info_turns_negative_counters_into_absence() {
    let (state, secs, pct) = info_from_raw(SDL_PowerState::SDL_POWERSTATE_UNKNOWN, -1, -1);
    assert_eq!(state, SDL_PowerState::SDL_POWERSTATE_UNKNOWN);
    assert_eq!(secs, None);
    assert_eq!(pct, None);
    let (_, secs, pct) = info_from_raw(SDL_PowerState::SDL_POWERSTATE_ON_BATTERY, 0, -3);
    assert_eq!(secs, Some(0));
    assert_eq!(pct, None);
}

#[test]
fn native_bool_round_trips() {
    assert!(SDL_bool::SDL_TRUE.to_bool());
    assert!(!SDL_bool::SDL_FALSE.to_bool());
    assert_eq!(SDL_bool::from_bool(true), SDL_bool::SDL_TRUE);
    assert_eq!(SDL_bool::from_bool(false), SDL_bool::SDL_FALSE);
}

#[test]
fn version_triple_holds_its_parts() {
    let v = SDL_version { major: 2, minor: 0, patch: 3 };
    assert_eq!((v.major, v.minor, v.patch), (2, 0, 3));
}
