//! Record construction, payload views, and the stamped decode.

use sdl2::event::{make_event, Event, PressedState, UnknownEventTag};
use sdl2::events::{
    SDL_ButtonState, SDL_Event, SDL_EventType, SDL_EVENT_DATA_SIZE, SDL_EVENT_SIZE, SDL_KEYDOWN,
    SDL_KEYUP, SDL_MOUSEMOTION, SDL_QUIT, SDL_USEREVENT, SDL_WINDOWEVENT,
};

/// A full native block with the given tag and timestamp in its first eight
/// bytes and zeroed payload bytes.
fn block(tag: u32, timestamp: u32) -> Vec<u8> {
    let mut b = vec![0u8; SDL_EVENT_SIZE];
    b[0..4].copy_from_slice(&tag.to_le_bytes());
    b[4..8].copy_from_slice(&timestamp.to_le_bytes());
    b
}

/// A record with the given tag, timestamp and payload bytes.
fn record(tag: u32, timestamp: u32, data: Vec<u8>) -> SDL_Event {
    assert_eq!(data.len(), SDL_EVENT_DATA_SIZE);
    SDL_Event::new(SDL_EventType { bits: tag }, timestamp, data)
}

fn zero_data() -> Vec<u8> {
    vec![0u8; SDL_EVENT_DATA_SIZE]
}

#[test]
fn from_bytes_reads_the_common_prefix() {
    let b = block(0x1234, 0xAABBCCDD);
    let ev = SDL_Event::from_bytes(&b);
    assert_eq!(ev.event_type.bits, 0x1234);
    assert_eq!(ev.timestamp, 0xAABBCCDD);
    assert_eq!(ev.data.len(), SDL_EVENT_DATA_SIZE);
}

#[test]
fn quit_record_decodes_to_stamped_quit() {
    let b = block(SDL_QUIT, 1000);
    let ev = SDL_Event::from_bytes(&b);
    let stamped = make_event(ev).expect("quit is a known tag");
    assert_eq!(stamped, (1000, Event::Quit));
}

#[test]
fn user_record_decodes_to_stamped_user_with_code() {
    let mut b = block(0x8005, 2000);
    // The code sits after the window id in the user payload.
    b[12..16].copy_from_slice(&42i32.to_le_bytes());
    let ev = SDL_Event::from_bytes(&b);
    let (ts, e) = make_event(ev).expect("the user range is known");
    assert_eq!(ts, 2000);
    match e {
        Event::User(p) => {
            assert_eq!(p.code, 42);
            assert_eq!(p.event_type.bits, 0x8005);
            assert_eq!(p.timestamp, 2000);
        }
        other => panic!("expected a user event, got {:?}", other),
    }
}

#[test]
fn unrecognised_tag_is_an_error_not_a_crash() {
    // 0x5555 matches no category and lies outside the user range.
    let ev = SDL_Event::from_bytes(&block(0x5555, 7));
    let err = make_event(ev).expect_err("0x5555 is not a known tag");
    assert_eq!(err, UnknownEventTag { bits: 0x5555 });
}

#[test]
fn tags_in_the_user_range_are_never_unknown() {
    // The documented user range is half-open at 0xFFFF, so 0x9999 is a user
    // tag, not an unknown one.
    let ev = SDL_Event::from_bytes(&block(0x9999, 3));
    let (_, e) = make_event(ev).expect("0x9999 lies inside the user range");
    assert!(matches!(e, Event::User(_)));
}

#[test]
fn key_down_and_key_up_collapse_to_keyboard() {
    let mut data = zero_data();
    data[4] = 1; // state byte: pressed
    let down = record(SDL_KEYDOWN, 5, data);
    let (_, e_down) = make_event(down).unwrap();

    let mut data = zero_data();
    data[4] = 0; // state byte: released
    let up = record(SDL_KEYUP, 5, data);
    let (_, e_up) = make_event(up).unwrap();

    // Same outer variant for both tags; the down/up distinction survives in
    // the payload's state field alone.
    match (e_down, e_up) {
        (Event::Keyboard(d), Event::Keyboard(u)) => {
            assert_eq!(d.state, SDL_ButtonState::SDL_PRESSED);
            assert_eq!(u.state, SDL_ButtonState::SDL_RELEASED);
            assert_eq!(d.event_type.bits, SDL_KEYDOWN);
            assert_eq!(u.event_type.bits, SDL_KEYUP);
        }
        other => panic!("expected two keyboard events, got {:?}", other),
    }
}

#[test]
fn checked_view_agrees_with_the_tag_predicate() {
    let mut data = zero_data();
    data[0..4].copy_from_slice(&7u32.to_le_bytes()); // windowID
    let ev = record(SDL_WINDOWEVENT, 123, data);
    let w = ev.get_window().expect("the tag matches");
    assert_eq!(w.event_type.bits, SDL_WINDOWEVENT);
    assert_eq!(w.timestamp, 123);
    assert_eq!(w.windowID, 7);
    // Probing the same record for other categories yields nothing.
    assert!(ev.get_key().is_none());
    assert!(ev.get_quit().is_none());
    assert!(ev.get_user().is_none());
    assert!(ev.get_motion().is_none());
}

#[test]
fn window_view_reads_fields_at_their_offsets() {
    let mut data = zero_data();
    data[0..4].copy_from_slice(&9u32.to_le_bytes()); // windowID
    data[4] = 5; // window sub-event
    data[8..12].copy_from_slice(&(-3i32).to_le_bytes()); // data1
    data[12..16].copy_from_slice(&600i32.to_le_bytes()); // data2
    let ev = record(SDL_WINDOWEVENT, 1, data);
    let w = ev.window();
    assert_eq!(w.windowID, 9);
    assert_eq!(w.event, 5);
    assert_eq!(w.data1, -3);
    assert_eq!(w.data2, 600);
    // The unchecked view and the checked view agree.
    assert_eq!(ev.get_window().unwrap(), w);
}

#[test]
fn keyboard_view_reads_the_keysym() {
    let mut data = zero_data();
    data[0..4].copy_from_slice(&2u32.to_le_bytes()); // windowID
    data[4] = 1; // pressed
    data[5] = 1; // repeat
    data[8..12].copy_from_slice(&57u32.to_le_bytes()); // scancode
    data[12..16].copy_from_slice(&0x40000039i32.to_le_bytes()); // keycode
    data[16..18].copy_from_slice(&0x0040u16.to_le_bytes()); // modifier mask
    let ev = record(SDL_KEYDOWN, 77, data);
    let k = ev.key();
    assert_eq!(k.windowID, 2);
    assert_eq!(k.state, SDL_ButtonState::SDL_PRESSED);
    assert_eq!(k.repeat, 1);
    assert_eq!(k.keysym.scancode, 57);
    assert_eq!(k.keysym.sym, 0x40000039);
    assert_eq!(k.keysym.key_mod, 0x0040);
}

#[test]
fn mouse_motion_view_reads_signed_coordinates() {
    let mut data = zero_data();
    data[0..4].copy_from_slice(&1u32.to_le_bytes()); // windowID
    data[4..8].copy_from_slice(&0u32.to_le_bytes()); // which
    data[8..12].copy_from_slice(&4u32.to_le_bytes()); // button state mask
    data[12..16].copy_from_slice(&(-20i32).to_le_bytes()); // x
    data[16..20].copy_from_slice(&35i32.to_le_bytes()); // y
    data[20..24].copy_from_slice(&(-1i32).to_le_bytes()); // xrel
    data[24..28].copy_from_slice(&2i32.to_le_bytes()); // yrel
    let ev = record(SDL_MOUSEMOTION, 9, data);
    let m = ev.get_motion().expect("the tag matches");
    assert_eq!(m.state, 4);
    assert_eq!(m.x, -20);
    assert_eq!(m.y, 35);
    assert_eq!(m.xrel, -1);
    assert_eq!(m.yrel, 2);
}

#[test]
fn joy_axis_view_reads_a_signed_sixteen_bit_value() {
    let mut data = zero_data();
    data[0..4].copy_from_slice(&3i32.to_le_bytes()); // which
    data[4] = 2; // axis
    data[8..10].copy_from_slice(&(-1234i16).to_le_bytes()); // value
    let ev = record(sdl2::events::SDL_JOYAXISMOTION, 4, data);
    let a = ev.get_jaxis().expect("the tag matches");
    assert_eq!(a.which, 3);
    assert_eq!(a.axis, 2);
    assert_eq!(a.value, -1234);
}

#[test]
fn text_input_view_copies_the_text_bytes() {
    let mut data = zero_data();
    data[0..4].copy_from_slice(&1u32.to_le_bytes());
    let text = b"hello\0";
    data[4..4 + text.len()].copy_from_slice(text);
    let ev = record(sdl2::events::SDL_TEXTINPUT, 11, data);
    let t = ev.get_text().expect("the tag matches");
    assert_eq!(t.text.len(), 32);
    assert_eq!(&t.text[0..6], text);
    assert_eq!(t.windowID, 1);
}

#[test]
fn text_editing_view_reads_start_and_length() {
    let mut data = zero_data();
    data[4..7].copy_from_slice(b"abc");
    data[36..40].copy_from_slice(&1i32.to_le_bytes()); // start
    data[40..44].copy_from_slice(&2i32.to_le_bytes()); // length
    let ev = record(sdl2::events::SDL_TEXTEDITING, 12, data);
    let t = ev.get_edit().expect("the tag matches");
    assert_eq!(&t.text[0..3], b"abc");
    assert_eq!(t.start, 1);
    assert_eq!(t.length, 2);
}

#[test]
fn user_view_reads_the_data_words() {
    let mut data = zero_data();
    data[0..4].copy_from_slice(&6u32.to_le_bytes()); // windowID
    data[4..8].copy_from_slice(&(-7i32).to_le_bytes()); // code
    data[8..16].copy_from_slice(&0x1122334455667788u64.to_le_bytes()); // data1
    data[16..24].copy_from_slice(&0x99u64.to_le_bytes()); // data2
    let ev = record(SDL_USEREVENT, 1, data);
    let u = ev.get_user().expect("the base of the user range matches");
    assert_eq!(u.windowID, 6);
    assert_eq!(u.code, -7);
    assert_eq!(u.data1, 0x1122334455667788);
    assert_eq!(u.data2, 0x99);
}

#[test]
fn touch_finger_view_carries_raw_float_bits() {
    let mut data = zero_data();
    data[0..8].copy_from_slice(&(-1i64).to_le_bytes()); // touchId
    data[8..16].copy_from_slice(&5i64.to_le_bytes()); // fingerId
    data[16..20].copy_from_slice(&0.5f32.to_bits().to_le_bytes()); // x
    data[32..36].copy_from_slice(&1.0f32.to_bits().to_le_bytes()); // pressure
    let ev = record(sdl2::events::SDL_FINGERDOWN, 2, data);
    let f = ev.get_tfinger().expect("the tag matches");
    assert_eq!(f.touchId, -1);
    assert_eq!(f.fingerId, 5);
    assert_eq!(f32::from_bits(f.x), 0.5);
    assert_eq!(f32::from_bits(f.pressure), 1.0);
}

#[test]
fn every_known_tag_decodes_without_error() {
    let known = [
        SDL_QUIT,
        0x101,
        0x102,
        0x103,
        0x104,
        0x105,
        0x106,
        SDL_WINDOWEVENT,
        0x201,
        SDL_KEYDOWN,
        SDL_KEYUP,
        0x302,
        0x303,
        SDL_MOUSEMOTION,
        0x401,
        0x402,
        0x403,
        0x600,
        0x601,
        0x602,
        0x603,
        0x604,
        0x605,
        0x606,
        0x650,
        0x651,
        0x652,
        0x653,
        0x654,
        0x655,
        0x700,
        0x701,
        0x702,
        0x800,
        0x802,
        0x900,
        0x1000,
        SDL_USEREVENT,
        0xFFFE,
    ];
    for &t in known.iter() {
        let ev = record(t, 1, zero_data());
        assert!(make_event(ev).is_ok(), "tag {:#x} should decode", t);
    }
}

#[test]
fn tags_outside_every_category_and_the_user_range_fail() {
    // The unused first tag, the recorded-gesture tag, and arbitrary gaps.
    for &t in [0u32, 0x801, 0x5555, 0x7FFF, 0xFFFF, 0x10000, 0xFFFF_FFFF].iter() {
        let ev = record(t, 1, zero_data());
        let err = make_event(ev).expect_err("the tag is unknown");
        assert_eq!(err.bits, t);
    }
}

#[test]
fn pressed_state_mirrors_button_state() {
    assert_eq!(
        PressedState::from_button_state(SDL_ButtonState::SDL_PRESSED),
        PressedState::Pressed
    );
    assert_eq!(
        PressedState::from_button_state(SDL_ButtonState::SDL_RELEASED),
        PressedState::Released
    );
}

#[test]
fn button_state_byte_zero_is_released_anything_else_pressed() {
    assert_eq!(SDL_ButtonState::from_byte(0), SDL_ButtonState::SDL_RELEASED);
    assert_eq!(SDL_ButtonState::from_byte(1), SDL_ButtonState::SDL_PRESSED);
    assert_eq!(SDL_ButtonState::from_byte(200), SDL_ButtonState::SDL_PRESSED);
}
