//! The fully-safe stamped representation: a closed tagged union over every
//! event category, built from a record by an explicit tag switch rather than
//! by reinterpretation.

use vstd::prelude::*;

use crate::events::{
    spec_button_state, spec_is_button, spec_is_caxis, spec_is_cbutton, spec_is_cdevice,
    spec_is_dgesture, spec_is_drop_, spec_is_edit, spec_is_jaxis, spec_is_jball, spec_is_jbutton,
    spec_is_jdevice, spec_is_jhat, spec_is_key, spec_is_mgesture, spec_is_motion, spec_is_quit,
    spec_is_syswm, spec_is_text, spec_is_tfinger, spec_is_user, spec_is_wheel, spec_is_window,
    SDL_ButtonState, SDL_ControllerAxisEvent, SDL_ControllerButtonEvent, SDL_ControllerDeviceEvent,
    SDL_DollarGestureEvent, SDL_DropEvent, SDL_Event, SDL_EventType, SDL_JoyAxisEvent,
    SDL_JoyBallEvent, SDL_JoyButtonEvent, SDL_JoyDeviceEvent, SDL_JoyHatEvent, SDL_KeyboardEvent,
    SDL_MouseButtonEvent, SDL_MouseMotionEvent, SDL_MouseWheelEvent, SDL_MultiGestureEvent,
    SDL_SysWMEvent, SDL_TextEditingEvent, SDL_TextInputEvent, SDL_TouchFingerEvent, SDL_UserEvent,
    SDL_WindowEvent,
    SDL_APP_DIDENTERBACKGROUND, SDL_APP_DIDENTERFOREGROUND, SDL_APP_LOWMEMORY,
    SDL_APP_TERMINATING, SDL_APP_WILLENTERBACKGROUND, SDL_APP_WILLENTERFOREGROUND,
    SDL_CLIPBOARDUPDATE, SDL_KEYDOWN, SDL_KEYUP,
};

verus! {

/// A decoded event together with the timestamp of the record it came from.
pub type EventStamped = (u32, Event);

/// The friendly form of a button state.
#[derive(Clone, Copy, Debug, PartialEq, Eq, Structural)]
pub enum PressedState {
    Pressed,
    Released,
}

/// The friendly state that a button state byte stands for.
pub open spec fn spec_pressed_state(s: SDL_ButtonState) -> PressedState {
    match s {
        SDL_ButtonState::SDL_PRESSED => PressedState::Pressed,
        SDL_ButtonState::SDL_RELEASED => PressedState::Released,
    }
}

impl PressedState {
    /// The friendly form of a payload's button state.
    pub fn from_button_state(s: SDL_ButtonState) -> (r: PressedState)
        ensures
            r == spec_pressed_state(s),
    {
        match s {
            SDL_ButtonState::SDL_PRESSED => PressedState::Pressed,
            SDL_ButtonState::SDL_RELEASED => PressedState::Released,
        }
    }
}

/// The tag of a record matched no known category and lay outside the user
/// range. Newer generations of the native library may introduce tags this
/// layer does not know, so the stamped construction surfaces such a record as
/// this value instead of treating it as unreachable.
#[derive(Clone, Copy, Debug, PartialEq, Eq, Structural)]
pub struct UnknownEventTag {
    /// The unrecognised tag value.
    pub bits: u32,
}

/// A closed tagged union over all event categories: one variant per category,
/// carrying that category's payload. Tags that only differ in their sub-kind
/// (key down and key up, a button pressed and released, a device added,
/// removed or remapped) collapse onto one variant; the sub-kind survives in
/// the payload.
#[derive(Clone, Debug, PartialEq, Eq)]
pub enum Event {
    AppTerminating,
    AppLowMemory,
    AppWillEnterBackground,
    AppDidEnterBackground,
    AppWillEnterForeground,
    AppDidEnterForeground,
    WindowEvent(SDL_WindowEvent),
    Keyboard(SDL_KeyboardEvent),
    TextEditing(SDL_TextEditingEvent),
    TextInput(SDL_TextInputEvent),
    MouseMotion(SDL_MouseMotionEvent),
    MouseButton(SDL_MouseButtonEvent),
    MouseWheel(SDL_MouseWheelEvent),
    JoyAxis(SDL_JoyAxisEvent),
    JoyBall(SDL_JoyBallEvent),
    JoyHat(SDL_JoyHatEvent),
    JoyButton(SDL_JoyButtonEvent),
    JoyDevice(SDL_JoyDeviceEvent),
    ControllerAxis(SDL_ControllerAxisEvent),
    ControllerButton(SDL_ControllerButtonEvent),
    ControllerDevice(SDL_ControllerDeviceEvent),
    TouchFinger(SDL_TouchFingerEvent),
    MultiGesture(SDL_MultiGestureEvent),
    DollarGesture(SDL_DollarGestureEvent),
    ClipboardUpdate,
    Drop(SDL_DropEvent),
    Quit,
    User(SDL_UserEvent),
    SysWm(SDL_SysWMEvent),
}

/// The tags on which the stamped construction succeeds: every category, the
/// six application lifecycle tags and the clipboard tag. The unused first
/// tag and the recorded-gesture tag are defined constants outside every
/// category, so they are not known here.
pub open spec fn spec_tag_known(bits: u32) -> bool {
    spec_is_quit(bits) || bits == SDL_APP_TERMINATING || bits == SDL_APP_LOWMEMORY
        || bits == SDL_APP_WILLENTERBACKGROUND || bits == SDL_APP_DIDENTERBACKGROUND
        || bits == SDL_APP_WILLENTERFOREGROUND || bits == SDL_APP_DIDENTERFOREGROUND
        || spec_is_window(bits) || spec_is_key(bits) || spec_is_edit(bits) || spec_is_text(bits)
        || spec_is_motion(bits) || spec_is_button(bits) || spec_is_wheel(bits)
        || spec_is_jaxis(bits) || spec_is_jball(bits) || spec_is_jhat(bits)
        || spec_is_jbutton(bits) || spec_is_jdevice(bits) || spec_is_caxis(bits)
        || spec_is_cbutton(bits) || spec_is_cdevice(bits) || spec_is_tfinger(bits)
        || spec_is_dgesture(bits) || spec_is_mgesture(bits) || bits == SDL_CLIPBOARDUPDATE
        || spec_is_drop_(bits) || spec_is_user(bits) || spec_is_syswm(bits)
}

/// The one decoded event that a well-formed record stands for: the variant
/// chosen by the tag, carrying the payload view of that category.
pub open spec fn spec_decoded_event(ev: SDL_Event, e: Event) -> bool {
    let b = ev.event_type.bits;
    if spec_is_quit(b) {
        e == Event::Quit
    } else if b == SDL_APP_TERMINATING {
        e == Event::AppTerminating
    } else if b == SDL_APP_LOWMEMORY {
        e == Event::AppLowMemory
    } else if b == SDL_APP_WILLENTERBACKGROUND {
        e == Event::AppWillEnterBackground
    } else if b == SDL_APP_DIDENTERBACKGROUND {
        e == Event::AppDidEnterBackground
    } else if b == SDL_APP_WILLENTERFOREGROUND {
        e == Event::AppWillEnterForeground
    } else if b == SDL_APP_DIDENTERFOREGROUND {
        e == Event::AppDidEnterForeground
    } else if spec_is_window(b) {
        e == Event::WindowEvent(ev.spec_window())
    } else if spec_is_key(b) {
        e == Event::Keyboard(ev.spec_key())
    } else if spec_is_edit(b) {
        e matches Event::TextEditing(p) && ev.spec_edit_matches(p)
    } else if spec_is_text(b) {
        e matches Event::TextInput(p) && ev.spec_text_matches(p)
    } else if spec_is_motion(b) {
        e == Event::MouseMotion(ev.spec_motion())
    } else if spec_is_button(b) {
        e == Event::MouseButton(ev.spec_button())
    } else if spec_is_wheel(b) {
        e == Event::MouseWheel(ev.spec_wheel())
    } else if spec_is_jaxis(b) {
        e == Event::JoyAxis(ev.spec_jaxis())
    } else if spec_is_jball(b) {
        e == Event::JoyBall(ev.spec_jball())
    } else if spec_is_jhat(b) {
        e == Event::JoyHat(ev.spec_jhat())
    } else if spec_is_jbutton(b) {
        e == Event::JoyButton(ev.spec_jbutton())
    } else if spec_is_jdevice(b) {
        e == Event::JoyDevice(ev.spec_jdevice())
    } else if spec_is_caxis(b) {
        e == Event::ControllerAxis(ev.spec_caxis())
    } else if spec_is_cbutton(b) {
        e == Event::ControllerButton(ev.spec_cbutton())
    } else if spec_is_cdevice(b) {
        e == Event::ControllerDevice(ev.spec_cdevice())
    } else if spec_is_tfinger(b) {
        e == Event::TouchFinger(ev.spec_tfinger())
    } else if spec_is_dgesture(b) {
        e == Event::DollarGesture(ev.spec_dgesture())
    } else if spec_is_mgesture(b) {
        e == Event::MultiGesture(ev.spec_mgesture())
    } else if b == SDL_CLIPBOARDUPDATE {
        e == Event::ClipboardUpdate
    } else if spec_is_drop_(b) {
        e == Event::Drop(ev.spec_drop_())
    } else if spec_is_user(b) {
        e == Event::User(ev.spec_user())
    } else if spec_is_syswm(b) {
        e == Event::SysWm(ev.spec_syswm())
    } else {
        false
    }
}

impl Event {
    /// Dispatch on the hoisted tag: choose the variant for a known tag,
    /// surface an unknown one. Callers hand the tag they already read
    /// alongside the record it came from.
    pub fn from_sdl_event_data(event_type: SDL_EventType, data: &SDL_Event) -> (r: Result<
        Event,
        UnknownEventTag,
    >)
        requires
            data.wf(),
            event_type == data.event_type,
        ensures
            r is Ok <==> spec_tag_known(data.event_type.bits),
            r matches Ok(e) ==> spec_decoded_event(*data, e),
            r matches Err(u) ==> u.bits == data.event_type.bits,
    {
        if event_type.is_quit() {
            Ok(Event::Quit)
        } else if event_type.bits == SDL_APP_TERMINATING {
            Ok(Event::AppTerminating)
        } else if event_type.bits == SDL_APP_LOWMEMORY {
            Ok(Event::AppLowMemory)
        } else if event_type.bits == SDL_APP_WILLENTERBACKGROUND {
            Ok(Event::AppWillEnterBackground)
        } else if event_type.bits == SDL_APP_DIDENTERBACKGROUND {
            Ok(Event::AppDidEnterBackground)
        } else if event_type.bits == SDL_APP_WILLENTERFOREGROUND {
            Ok(Event::AppWillEnterForeground)
        } else if event_type.bits == SDL_APP_DIDENTERFOREGROUND {
            Ok(Event::AppDidEnterForeground)
        } else if event_type.is_window() {
            Ok(Event::from_sdl_window_event(data.window()))
        } else if event_type.is_key() {
            Ok(Event::from_sdl_keyboard(data.key()))
        } else if event_type.is_edit() {
            Ok(Event::from_sdl_text_editing(data.edit()))
        } else if event_type.is_text() {
            Ok(Event::from_sdl_text_input(data.text()))
        } else if event_type.is_motion() {
            Ok(Event::from_sdl_mouse_motion(data.motion()))
        } else if event_type.is_button() {
            Ok(Event::from_sdl_mouse_button(data.button()))
        } else if event_type.is_wheel() {
            Ok(Event::from_sdl_mouse_wheel(data.wheel()))
        } else if event_type.is_jaxis() {
            Ok(Event::from_sdl_joy_axis(data.jaxis()))
        } else if event_type.is_jball() {
            Ok(Event::from_sdl_joy_ball(data.jball()))
        } else if event_type.is_jhat() {
            Ok(Event::from_sdl_joy_hat(data.jhat()))
        } else if event_type.is_jbutton() {
            Ok(Event::from_sdl_joy_button(data.jbutton()))
        } else if event_type.is_jdevice() {
            Ok(Event::from_sdl_joy_device(data.jdevice()))
        } else if event_type.is_caxis() {
            Ok(Event::from_sdl_controller_axis(data.caxis()))
        } else if event_type.is_cbutton() {
            Ok(Event::from_sdl_controller_button(data.cbutton()))
        } else if event_type.is_cdevice() {
            Ok(Event::from_sdl_controller_device(data.cdevice()))
        } else if event_type.is_tfinger() {
            Ok(Event::from_sdl_touch_finger(data.tfinger()))
        } else if event_type.is_dgesture() {
            Ok(Event::from_sdl_dollar_gesture(data.dgesture()))
        } else if event_type.is_mgesture() {
            Ok(Event::from_sdl_multi_gesture(data.mgesture()))
        } else if event_type.bits == SDL_CLIPBOARDUPDATE {
            Ok(Event::ClipboardUpdate)
        } else if event_type.is_drop_() {
            Ok(Event::from_sdl_drop(data.drop_()))
        } else if event_type.is_user() {
            Ok(Event::from_sdl_user(data.user()))
        } else if event_type.is_syswm() {
            Ok(Event::from_sdl_syswm(data.syswm()))
        } else {
            Err(UnknownEventTag { bits: event_type.bits })
        }
    }

    pub fn from_sdl_window_event(data: SDL_WindowEvent) -> (r: Event)
        ensures
            r == Event::WindowEvent(data),
    {
        Event::WindowEvent(data)
    }

    pub fn from_sdl_keyboard(data: SDL_KeyboardEvent) -> (r: Event)
        ensures
            r == Event::Keyboard(data),
    {
        Event::Keyboard(data)
    }

    pub fn from_sdl_text_editing(data: SDL_TextEditingEvent) -> (r: Event)
        ensures
            r == Event::TextEditing(data),
    {
        Event::TextEditing(data)
    }

    pub fn from_sdl_text_input(data: SDL_TextInputEvent) -> (r: Event)
        ensures
            r == Event::TextInput(data),
    {
        Event::TextInput(data)
    }

    pub fn from_sdl_mouse_motion(data: SDL_MouseMotionEvent) -> (r: Event)
        ensures
            r == Event::MouseMotion(data),
    {
        Event::MouseMotion(data)
    }

    pub fn from_sdl_mouse_button(data: SDL_MouseButtonEvent) -> (r: Event)
        ensures
            r == Event::MouseButton(data),
    {
        Event::MouseButton(data)
    }

    pub fn from_sdl_mouse_wheel(data: SDL_MouseWheelEvent) -> (r: Event)
        ensures
            r == Event::MouseWheel(data),
    {
        Event::MouseWheel(data)
    }

    pub fn from_sdl_joy_axis(data: SDL_JoyAxisEvent) -> (r: Event)
        ensures
            r == Event::JoyAxis(data),
    {
        Event::JoyAxis(data)
    }

    pub fn from_sdl_joy_ball(data: SDL_JoyBallEvent) -> (r: Event)
        ensures
            r == Event::JoyBall(data),
    {
        Event::JoyBall(data)
    }

    pub fn from_sdl_joy_hat(data: SDL_JoyHatEvent) -> (r: Event)
        ensures
            r == Event::JoyHat(data),
    {
        Event::JoyHat(data)
    }

    pub fn from_sdl_joy_button(data: SDL_JoyButtonEvent) -> (r: Event)
        ensures
            r == Event::JoyButton(data),
    {
        Event::JoyButton(data)
    }

    pub fn from_sdl_joy_device(data: SDL_JoyDeviceEvent) -> (r: Event)
        ensures
            r == Event::JoyDevice(data),
    {
        Event::JoyDevice(data)
    }

    pub fn from_sdl_controller_axis(data: SDL_ControllerAxisEvent) -> (r: Event)
        ensures
            r == Event::ControllerAxis(data),
    {
        Event::ControllerAxis(data)
    }

    pub fn from_sdl_controller_button(data: SDL_ControllerButtonEvent) -> (r: Event)
        ensures
            r == Event::ControllerButton(data),
    {
        Event::ControllerButton(data)
    }

    pub fn from_sdl_controller_device(data: SDL_ControllerDeviceEvent) -> (r: Event)
        ensures
            r == Event::ControllerDevice(data),
    {
        Event::ControllerDevice(data)
    }

    pub fn from_sdl_touch_finger(data: SDL_TouchFingerEvent) -> (r: Event)
        ensures
            r == Event::TouchFinger(data),
    {
        Event::TouchFinger(data)
    }

    pub fn from_sdl_multi_gesture(data: SDL_MultiGestureEvent) -> (r: Event)
        ensures
            r == Event::MultiGesture(data),
    {
        Event::MultiGesture(data)
    }

    pub fn from_sdl_dollar_gesture(data: SDL_DollarGestureEvent) -> (r: Event)
        ensures
            r == Event::DollarGesture(data),
    {
        Event::DollarGesture(data)
    }

    pub fn from_sdl_drop(data: SDL_DropEvent) -> (r: Event)
        ensures
            r == Event::Drop(data),
    {
        Event::Drop(data)
    }

    pub fn from_sdl_user(data: SDL_UserEvent) -> (r: Event)
        ensures
            r == Event::User(data),
    {
        Event::User(data)
    }

    pub fn from_sdl_syswm(data: SDL_SysWMEvent) -> (r: Event)
        ensures
            r == Event::SysWm(data),
    {
        Event::SysWm(data)
    }
}

/// Produce the stamped pair for a record: its timestamp together with the
/// decoded event its tag and payload stand for. Succeeds exactly on the known
/// tags; any other tag comes back as `UnknownEventTag` carrying the value.
pub fn make_event(event: SDL_Event) -> (r: Result<EventStamped, UnknownEventTag>)
    requires
        event.wf(),
    ensures
        r is Ok <==> spec_tag_known(event.event_type.bits),
        r matches Ok(p) ==> p.0 == event.timestamp && spec_decoded_event(event, p.1),
        r matches Err(u) ==> u.bits == event.event_type.bits,
{
    let timestamp = event.timestamp;
    match Event::from_sdl_event_data(event.event_type, &event) {
        Ok(e) => Ok((timestamp, e)),
        Err(u) => Err(u),
    }
}

/// Key-press and key-release records collapse onto the same outer variant;
/// the down/up distinction survives only in the payload's state field, which
/// is decoded from the record's state byte.
pub proof fn lemma_keyboard_collapse(ev: SDL_Event, e: Event)
    requires
        ev.wf(),
        ev.event_type.bits == SDL_KEYDOWN || ev.event_type.bits == SDL_KEYUP,
        spec_decoded_event(ev, e),
    ensures
        e == Event::Keyboard(ev.spec_key()),
        ev.spec_key().state == spec_button_state(ev.data_bytes()[4]),
{
}

} // verus!
