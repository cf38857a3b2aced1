//! The event tag catalog, the category predicates over it, and the fixed-size
//! event record with its checked and unchecked payload views.

use vstd::prelude::*;

use crate::keyboard::SDL_Keysym;

verus! {

// ------------------------------------------------------------------
// Tag catalog
// ------------------------------------------------------------------

/// Unused.
pub const SDL_FIRSTEVENT: u32 = 0;

// Application events
pub const SDL_QUIT: u32 = 0x100;

// Mobile lifecycle events, delivered ahead of ordinary processing.
pub const SDL_APP_TERMINATING: u32 = 0x101;
pub const SDL_APP_LOWMEMORY: u32 = 0x102;
pub const SDL_APP_WILLENTERBACKGROUND: u32 = 0x103;
pub const SDL_APP_DIDENTERBACKGROUND: u32 = 0x104;
pub const SDL_APP_WILLENTERFOREGROUND: u32 = 0x105;
pub const SDL_APP_DIDENTERFOREGROUND: u32 = 0x106;

// Window events
pub const SDL_WINDOWEVENT: u32 = 0x200;
pub const SDL_SYSWMEVENT: u32 = 0x201;

// Keyboard events
pub const SDL_KEYDOWN: u32 = 0x300;
pub const SDL_KEYUP: u32 = 0x301;
pub const SDL_TEXTEDITING: u32 = 0x302;
pub const SDL_TEXTINPUT: u32 = 0x303;

// Mouse events
pub const SDL_MOUSEMOTION: u32 = 0x400;
pub const SDL_MOUSEBUTTONDOWN: u32 = 0x401;
pub const SDL_MOUSEBUTTONUP: u32 = 0x402;
pub const SDL_MOUSEWHEEL: u32 = 0x403;

// Joystick events
pub const SDL_JOYAXISMOTION: u32 = 0x600;
pub const SDL_JOYBALLMOTION: u32 = 0x601;
pub const SDL_JOYHATMOTION: u32 = 0x602;
pub const SDL_JOYBUTTONDOWN: u32 = 0x603;
pub const SDL_JOYBUTTONUP: u32 = 0x604;
pub const SDL_JOYDEVICEADDED: u32 = 0x605;
pub const SDL_JOYDEVICEREMOVED: u32 = 0x606;

// Game controller events
pub const SDL_CONTROLLERAXISMOTION: u32 = 0x650;
pub const SDL_CONTROLLERBUTTONDOWN: u32 = 0x651;
pub const SDL_CONTROLLERBUTTONUP: u32 = 0x652;
pub const SDL_CONTROLLERDEVICEADDED: u32 = 0x653;
pub const SDL_CONTROLLERDEVICEREMOVED: u32 = 0x654;
pub const SDL_CONTROLLERDEVICEREMAPPED: u32 = 0x655;

// Touch events
pub const SDL_FINGERDOWN: u32 = 0x700;
pub const SDL_FINGERUP: u32 = 0x701;
pub const SDL_FINGERMOTION: u32 = 0x702;

// Gesture events
pub const SDL_DOLLARGESTURE: u32 = 0x800;
pub const SDL_DOLLARRECORD: u32 = 0x801;
pub const SDL_MULTIGESTURE: u32 = 0x802;

// Clipboard events
pub const SDL_CLIPBOARDUPDATE: u32 = 0x900;

// Drag and drop events
pub const SDL_DROPFILE: u32 = 0x1000;

/// User defined events start here.
pub const SDL_USEREVENT: u32 = 0x8000;

/// The last user event tag is `SDL_LASTEVENT - 1`; this value itself is never
/// a valid tag, it only bounds the user range from above.
pub const SDL_LASTEVENT: u32 = 0xFFFF;

/// The discriminant identifying an event's category and exact sub-kind.
#[derive(Clone, Copy, Debug, PartialEq, Eq, Structural)]
pub struct SDL_EventType {
    pub bits: u32,
}

// ------------------------------------------------------------------
// Category predicates
// ------------------------------------------------------------------

pub open spec fn spec_is_window(bits: u32) -> bool {
    bits == SDL_WINDOWEVENT
}

pub open spec fn spec_is_key(bits: u32) -> bool {
    bits == SDL_KEYDOWN || bits == SDL_KEYUP
}

pub open spec fn spec_is_edit(bits: u32) -> bool {
    bits == SDL_TEXTEDITING
}

pub open spec fn spec_is_text(bits: u32) -> bool {
    bits == SDL_TEXTINPUT
}

pub open spec fn spec_is_motion(bits: u32) -> bool {
    bits == SDL_MOUSEMOTION
}

pub open spec fn spec_is_button(bits: u32) -> bool {
    bits == SDL_MOUSEBUTTONDOWN || bits == SDL_MOUSEBUTTONUP
}

pub open spec fn spec_is_wheel(bits: u32) -> bool {
    bits == SDL_MOUSEWHEEL
}

pub open spec fn spec_is_jaxis(bits: u32) -> bool {
    bits == SDL_JOYAXISMOTION
}

pub open spec fn spec_is_jball(bits: u32) -> bool {
    bits == SDL_JOYBALLMOTION
}

pub open spec fn spec_is_jhat(bits: u32) -> bool {
    bits == SDL_JOYHATMOTION
}

pub open spec fn spec_is_jbutton(bits: u32) -> bool {
    bits == SDL_JOYBUTTONDOWN || bits == SDL_JOYBUTTONUP
}

pub open spec fn spec_is_jdevice(bits: u32) -> bool {
    bits == SDL_JOYDEVICEADDED || bits == SDL_JOYDEVICEREMOVED
}

pub open spec fn spec_is_caxis(bits: u32) -> bool {
    bits == SDL_CONTROLLERAXISMOTION
}

pub open spec fn spec_is_cbutton(bits: u32) -> bool {
    bits == SDL_CONTROLLERBUTTONDOWN || bits == SDL_CONTROLLERBUTTONUP
}

pub open spec fn spec_is_cdevice(bits: u32) -> bool {
    bits == SDL_CONTROLLERDEVICEADDED || bits == SDL_CONTROLLERDEVICEREMOVED
        || bits == SDL_CONTROLLERDEVICEREMAPPED
}

pub open spec fn spec_is_quit(bits: u32) -> bool {
    bits == SDL_QUIT
}

pub open spec fn spec_is_user(bits: u32) -> bool {
    SDL_USEREVENT <= bits && bits < SDL_LASTEVENT
}

pub open spec fn spec_is_syswm(bits: u32) -> bool {
    bits == SDL_SYSWMEVENT
}

pub open spec fn spec_is_tfinger(bits: u32) -> bool {
    bits == SDL_FINGERMOTION || bits == SDL_FINGERDOWN || bits == SDL_FINGERUP
}

pub open spec fn spec_is_mgesture(bits: u32) -> bool {
    bits == SDL_MULTIGESTURE
}

pub open spec fn spec_is_dgesture(bits: u32) -> bool {
    bits == SDL_DOLLARGESTURE
}

pub open spec fn spec_is_drop_(bits: u32) -> bool {
    bits == SDL_DROPFILE
}

impl SDL_EventType {
    /// Create an event type representing a user event. The supplied bits must
    /// lie in the half-open user range `SDL_USEREVENT <= bits < SDL_LASTEVENT`;
    /// supplying bits outside it is a caller error, not a recoverable one, so
    /// the range is a precondition rather than a checked result.
    pub fn new_user_event(bits: u32) -> (r: SDL_EventType)
        requires
            SDL_USEREVENT <= bits < SDL_LASTEVENT,
        ensures
            r.bits == bits,
            spec_is_user(r.bits),
    {
        SDL_EventType { bits }
    }

    pub fn is_window(&self) -> (r: bool)
        ensures
            r == spec_is_window(self.bits),
    {
        self.bits == SDL_WINDOWEVENT
    }

    pub fn is_key(&self) -> (r: bool)
        ensures
            r == spec_is_key(self.bits),
    {
        self.bits == SDL_KEYDOWN || self.bits == SDL_KEYUP
    }

    pub fn is_edit(&self) -> (r: bool)
        ensures
            r == spec_is_edit(self.bits),
    {
        self.bits == SDL_TEXTEDITING
    }

    pub fn is_text(&self) -> (r: bool)
        ensures
            r == spec_is_text(self.bits),
    {
        self.bits == SDL_TEXTINPUT
    }

    pub fn is_motion(&self) -> (r: bool)
        ensures
            r == spec_is_motion(self.bits),
    {
        self.bits == SDL_MOUSEMOTION
    }

    pub fn is_button(&self) -> (r: bool)
        ensures
            r == spec_is_button(self.bits),
    {
        self.bits == SDL_MOUSEBUTTONDOWN || self.bits == SDL_MOUSEBUTTONUP
    }

    pub fn is_wheel(&self) -> (r: bool)
        ensures
            r == spec_is_wheel(self.bits),
    {
        self.bits == SDL_MOUSEWHEEL
    }

    pub fn is_jaxis(&self) -> (r: bool)
        ensures
            r == spec_is_jaxis(self.bits),
    {
        self.bits == SDL_JOYAXISMOTION
    }

    pub fn is_jball(&self) -> (r: bool)
        ensures
            r == spec_is_jball(self.bits),
    {
        self.bits == SDL_JOYBALLMOTION
    }

    pub fn is_jhat(&self) -> (r: bool)
        ensures
            r == spec_is_jhat(self.bits),
    {
        self.bits == SDL_JOYHATMOTION
    }

    pub fn is_jbutton(&self) -> (r: bool)
        ensures
            r == spec_is_jbutton(self.bits),
    {
        self.bits == SDL_JOYBUTTONDOWN || self.bits == SDL_JOYBUTTONUP
    }

    pub fn is_jdevice(&self) -> (r: bool)
        ensures
            r == spec_is_jdevice(self.bits),
    {
        self.bits == SDL_JOYDEVICEADDED || self.bits == SDL_JOYDEVICEREMOVED
    }

    pub fn is_caxis(&self) -> (r: bool)
        ensures
            r == spec_is_caxis(self.bits),
    {
        self.bits == SDL_CONTROLLERAXISMOTION
    }

    pub fn is_cbutton(&self) -> (r: bool)
        ensures
            r == spec_is_cbutton(self.bits),
    {
        self.bits == SDL_CONTROLLERBUTTONDOWN || self.bits == SDL_CONTROLLERBUTTONUP
    }

    pub fn is_cdevice(&self) -> (r: bool)
        ensures
            r == spec_is_cdevice(self.bits),
    {
        self.bits == SDL_CONTROLLERDEVICEADDED || self.bits == SDL_CONTROLLERDEVICEREMOVED
            || self.bits == SDL_CONTROLLERDEVICEREMAPPED
    }

    pub fn is_quit(&self) -> (r: bool)
        ensures
            r == spec_is_quit(self.bits),
    {
        self.bits == SDL_QUIT
    }

    pub fn is_user(&self) -> (r: bool)
        ensures
            r == spec_is_user(self.bits),
    {
        SDL_USEREVENT <= self.bits && self.bits < SDL_LASTEVENT
    }

    pub fn is_syswm(&self) -> (r: bool)
        ensures
            r == spec_is_syswm(self.bits),
    {
        self.bits == SDL_SYSWMEVENT
    }

    pub fn is_tfinger(&self) -> (r: bool)
        ensures
            r == spec_is_tfinger(self.bits),
    {
        self.bits == SDL_FINGERMOTION || self.bits == SDL_FINGERDOWN
            || self.bits == SDL_FINGERUP
    }

    pub fn is_mgesture(&self) -> (r: bool)
        ensures
            r == spec_is_mgesture(self.bits),
    {
        self.bits == SDL_MULTIGESTURE
    }

    pub fn is_dgesture(&self) -> (r: bool)
        ensures
            r == spec_is_dgesture(self.bits),
    {
        self.bits == SDL_DOLLARGESTURE
    }

    pub fn is_drop_(&self) -> (r: bool)
        ensures
            r == spec_is_drop_(self.bits),
    {
        self.bits == SDL_DROPFILE
    }
}

// ------------------------------------------------------------------
// The categories partition the tag space
// ------------------------------------------------------------------

/// One value per category predicate, so that facts about the whole predicate
/// set can be stated as quantified statements over this type.
#[derive(Clone, Copy, Debug, PartialEq, Eq, Structural)]
pub enum EventCategory {
    Window,
    Key,
    Edit,
    Text,
    Motion,
    Button,
    Wheel,
    JoyAxis,
    JoyBall,
    JoyHat,
    JoyButton,
    JoyDevice,
    ControllerAxis,
    ControllerButton,
    ControllerDevice,
    Quit,
    User,
    SysWm,
    TouchFinger,
    MultiGesture,
    DollarGesture,
    DropFile,
}

/// The predicate belonging to `c`, applied to `bits`.
pub open spec fn spec_predicate_holds(c: EventCategory, bits: u32) -> bool {
    match c {
        EventCategory::Window => spec_is_window(bits),
        EventCategory::Key => spec_is_key(bits),
        EventCategory::Edit => spec_is_edit(bits),
        EventCategory::Text => spec_is_text(bits),
        EventCategory::Motion => spec_is_motion(bits),
        EventCategory::Button => spec_is_button(bits),
        EventCategory::Wheel => spec_is_wheel(bits),
        EventCategory::JoyAxis => spec_is_jaxis(bits),
        EventCategory::JoyBall => spec_is_jball(bits),
        EventCategory::JoyHat => spec_is_jhat(bits),
        EventCategory::JoyButton => spec_is_jbutton(bits),
        EventCategory::JoyDevice => spec_is_jdevice(bits),
        EventCategory::ControllerAxis => spec_is_caxis(bits),
        EventCategory::ControllerButton => spec_is_cbutton(bits),
        EventCategory::ControllerDevice => spec_is_cdevice(bits),
        EventCategory::Quit => spec_is_quit(bits),
        EventCategory::User => spec_is_user(bits),
        EventCategory::SysWm => spec_is_syswm(bits),
        EventCategory::TouchFinger => spec_is_tfinger(bits),
        EventCategory::MultiGesture => spec_is_mgesture(bits),
        EventCategory::DollarGesture => spec_is_dgesture(bits),
        EventCategory::DropFile => spec_is_drop_(bits),
    }
}

/// The category predicates never overlap: no tag value satisfies two distinct
/// predicates. Together with each predicate's exact characterisation (stated
/// in the `ensures` of the corresponding `is_*` method) this says the
/// predicate set partitions the tag space, the down/up and added/removed
/// collapses being internal to a single category.
pub proof fn lemma_category_predicates_disjoint(bits: u32)
    ensures
        forall|c1: EventCategory, c2: EventCategory|
            #[trigger] spec_predicate_holds(c1, bits) && #[trigger] spec_predicate_holds(c2, bits)
                ==> c1 == c2,
{
}

/// The user range is half-open: its base is itself a user tag, its exclusive
/// upper bound is not.
pub proof fn lemma_user_range_bounds()
    ensures
        spec_is_user(SDL_USEREVENT),
        !spec_is_user(SDL_LASTEVENT),
{
}

// ------------------------------------------------------------------
// Little-endian scalar views over the record's bytes
// ------------------------------------------------------------------

pub open spec fn spec_u16_le(s: Seq<u8>, i: int) -> u16 {
    (s[i] as u16) | (s[i + 1] as u16) << 8
}

pub open spec fn spec_u32_le(s: Seq<u8>, i: int) -> u32 {
    (s[i] as u32) | (s[i + 1] as u32) << 8 | (s[i + 2] as u32) << 16 | (s[i + 3] as u32) << 24
}

pub open spec fn spec_u64_le(s: Seq<u8>, i: int) -> u64 {
    (s[i] as u64) | (s[i + 1] as u64) << 8 | (s[i + 2] as u64) << 16 | (s[i + 3] as u64) << 24
        | (s[i + 4] as u64) << 32 | (s[i + 5] as u64) << 40 | (s[i + 6] as u64) << 48
        | (s[i + 7] as u64) << 56
}

pub open spec fn spec_i16_le(s: Seq<u8>, i: int) -> i16 {
    spec_u16_le(s, i) as i16
}

pub open spec fn spec_i32_le(s: Seq<u8>, i: int) -> i32 {
    spec_u32_le(s, i) as i32
}

pub open spec fn spec_i64_le(s: Seq<u8>, i: int) -> i64 {
    spec_u64_le(s, i) as i64
}

fn read_u8(d: &Vec<u8>, i: usize) -> (r: u8)
    requires
        i < d@.len(),
    ensures
        r == d@[i as int],
{
    d[i]
}

fn read_u16_le(d: &Vec<u8>, i: usize) -> (r: u16)
    requires
        i + 2 <= d@.len(),
    ensures
        r == spec_u16_le(d@, i as int),
{
    // Binding the length makes the bound on the index arithmetic available.
    let _n: usize = d.len();
    (d[i] as u16) | (d[i + 1] as u16) << 8u16
}

fn read_u32_le(d: &Vec<u8>, i: usize) -> (r: u32)
    requires
        i + 4 <= d@.len(),
    ensures
        r == spec_u32_le(d@, i as int),
{
    let _n: usize = d.len();
    (d[i] as u32) | (d[i + 1] as u32) << 8u32 | (d[i + 2] as u32) << 16u32
        | (d[i + 3] as u32) << 24u32
}

fn read_u64_le(d: &Vec<u8>, i: usize) -> (r: u64)
    requires
        i + 8 <= d@.len(),
    ensures
        r == spec_u64_le(d@, i as int),
{
    let _n: usize = d.len();
    (d[i] as u64) | (d[i + 1] as u64) << 8u64 | (d[i + 2] as u64) << 16u64
        | (d[i + 3] as u64) << 24u64 | (d[i + 4] as u64) << 32u64 | (d[i + 5] as u64) << 40u64
        | (d[i + 6] as u64) << 48u64 | (d[i + 7] as u64) << 56u64
}

fn read_i16_le(d: &Vec<u8>, i: usize) -> (r: i16)
    requires
        i + 2 <= d@.len(),
    ensures
        r == spec_i16_le(d@, i as int),
{
    read_u16_le(d, i) as i16
}

fn read_i32_le(d: &Vec<u8>, i: usize) -> (r: i32)
    requires
        i + 4 <= d@.len(),
    ensures
        r == spec_i32_le(d@, i as int),
{
    read_u32_le(d, i) as i32
}

fn read_i64_le(d: &Vec<u8>, i: usize) -> (r: i64)
    requires
        i + 8 <= d@.len(),
    ensures
        r == spec_i64_le(d@, i as int),
{
    read_u64_le(d, i) as i64
}

// ------------------------------------------------------------------
// Payload variants
// ------------------------------------------------------------------

/// The state of a button: pressed or released.
#[derive(Clone, Copy, Debug, PartialEq, Eq, Structural)]
pub enum SDL_ButtonState {
    SDL_RELEASED,
    SDL_PRESSED,
}

/// The button state encoded by a state byte: zero is released, anything else
/// is pressed.
pub open spec fn spec_button_state(b: u8) -> SDL_ButtonState {
    if b == 0 {
        SDL_ButtonState::SDL_RELEASED
    } else {
        SDL_ButtonState::SDL_PRESSED
    }
}

impl SDL_ButtonState {
    /// Decode a state byte.
    pub fn from_byte(b: u8) -> (r: SDL_ButtonState)
        ensures
            r == spec_button_state(b),
    {
        if b == 0 {
            SDL_ButtonState::SDL_RELEASED
        } else {
            SDL_ButtonState::SDL_PRESSED
        }
    }
}

/// Window state change. Tag: `SDL_WINDOWEVENT`.
#[derive(Clone, Copy, Debug, PartialEq, Eq, Structural)]
pub struct SDL_WindowEvent {
    pub event_type: SDL_EventType,
    pub timestamp: u32,
    /// The associated window.
    pub windowID: u32,
    /// The window sub-event.
    pub event: u8,
    pub data1: i32,
    pub data2: i32,
}

/// Key press or release. Tags: `SDL_KEYDOWN`, `SDL_KEYUP`.
#[derive(Clone, Copy, Debug, PartialEq, Eq, Structural)]
pub struct SDL_KeyboardEvent {
    pub event_type: SDL_EventType,
    pub timestamp: u32,
    /// The window with keyboard focus, if any.
    pub windowID: u32,
    pub state: SDL_ButtonState,
    pub repeat: u8,
    pub keysym: SDL_Keysym,
}

/// Number of bytes of composition text carried by an editing event.
pub const SDL_TEXTEDITINGEVENT_TEXT_SIZE: usize = 32;

/// Keyboard text composition in progress. Tag: `SDL_TEXTEDITING`.
#[derive(Clone, Debug, PartialEq, Eq)]
pub struct SDL_TextEditingEvent {
    pub event_type: SDL_EventType,
    pub timestamp: u32,
    /// The window with keyboard focus, if any.
    pub windowID: u32,
    /// The composition text bytes, exactly as they sit in the record.
    pub text: Vec<u8>,
    pub start: i32,
    pub length: i32,
}

/// Number of bytes of input text carried by an input event.
pub const SDL_TEXTINPUTEVENT_TEXT_SIZE: usize = 32;

/// Keyboard text input. Tag: `SDL_TEXTINPUT`.
#[derive(Clone, Debug, PartialEq, Eq)]
pub struct SDL_TextInputEvent {
    pub event_type: SDL_EventType,
    pub timestamp: u32,
    /// The window with keyboard focus, if any.
    pub windowID: u32,
    /// The input text bytes, exactly as they sit in the record.
    pub text: Vec<u8>,
}

/// Mouse movement. Tag: `SDL_MOUSEMOTION`.
#[derive(Clone, Copy, Debug, PartialEq, Eq, Structural)]
pub struct SDL_MouseMotionEvent {
    pub event_type: SDL_EventType,
    pub timestamp: u32,
    /// The window with mouse focus, if any.
    pub windowID: u32,
    pub which: u32,
    pub state: u32,
    pub x: i32,
    pub y: i32,
    pub xrel: i32,
    pub yrel: i32,
}

/// Mouse button press or release. Tags: `SDL_MOUSEBUTTONDOWN`, `SDL_MOUSEBUTTONUP`.
#[derive(Clone, Copy, Debug, PartialEq, Eq, Structural)]
pub struct SDL_MouseButtonEvent {
    pub event_type: SDL_EventType,
    pub timestamp: u32,
    /// The window with mouse focus, if any.
    pub windowID: u32,
    pub which: u32,
    pub button: u8,
    pub state: SDL_ButtonState,
    pub x: i32,
    pub y: i32,
}

/// Mouse wheel motion. Tag: `SDL_MOUSEWHEEL`.
#[derive(Clone, Copy, Debug, PartialEq, Eq, Structural)]
pub struct SDL_MouseWheelEvent {
    pub event_type: SDL_EventType,
    pub timestamp: u32,
    /// The window with mouse focus, if any.
    pub windowID: u32,
    pub which: u32,
    pub x: i32,
    pub y: i32,
}

/// Joystick axis motion. Tag: `SDL_JOYAXISMOTION`.
#[derive(Clone, Copy, Debug, PartialEq, Eq, Structural)]
pub struct SDL_JoyAxisEvent {
    pub event_type: SDL_EventType,
    pub timestamp: u32,
    pub which: i32,
    pub axis: u8,
    pub value: i16,
}

/// Joystick trackball motion. Tag: `SDL_JOYBALLMOTION`.
#[derive(Clone, Copy, Debug, PartialEq, Eq, Structural)]
pub struct SDL_JoyBallEvent {
    pub event_type: SDL_EventType,
    pub timestamp: u32,
    pub which: i32,
    pub ball: u8,
    pub xrel: i16,
    pub yrel: i16,
}

/// Joystick hat position change. Tag: `SDL_JOYHATMOTION`.
#[derive(Clone, Copy, Debug, PartialEq, Eq, Structural)]
pub struct SDL_JoyHatEvent {
    pub event_type: SDL_EventType,
    pub timestamp: u32,
    pub which: i32,
    pub hat: u8,
    pub value: u8,
}

/// Joystick button press or release. Tags: `SDL_JOYBUTTONDOWN`, `SDL_JOYBUTTONUP`.
#[derive(Clone, Copy, Debug, PartialEq, Eq, Structural)]
pub struct SDL_JoyButtonEvent {
    pub event_type: SDL_EventType,
    pub timestamp: u32,
    pub which: i32,
    pub button: u8,
    pub state: SDL_ButtonState,
}

/// Joystick connected or disconnected. Tags: `SDL_JOYDEVICEADDED`, `SDL_JOYDEVICEREMOVED`.
#[derive(Clone, Copy, Debug, PartialEq, Eq, Structural)]
pub struct SDL_JoyDeviceEvent {
    pub event_type: SDL_EventType,
    pub timestamp: u32,
    pub which: i32,
}

/// Game controller axis motion. Tag: `SDL_CONTROLLERAXISMOTION`.
#[derive(Clone, Copy, Debug, PartialEq, Eq, Structural)]
pub struct SDL_ControllerAxisEvent {
    pub event_type: SDL_EventType,
    pub timestamp: u32,
    pub which: i32,
    pub axis: u8,
    pub value: i16,
}

/// Game controller button press or release. Tags: `SDL_CONTROLLERBUTTONDOWN`,
/// `SDL_CONTROLLERBUTTONUP`.
#[derive(Clone, Copy, Debug, PartialEq, Eq, Structural)]
pub struct SDL_ControllerButtonEvent {
    pub event_type: SDL_EventType,
    pub timestamp: u32,
    pub which: i32,
    pub button: u8,
    pub state: SDL_ButtonState,
}

/// Game controller connected, disconnected or remapped. Tags:
/// `SDL_CONTROLLERDEVICEADDED`, `SDL_CONTROLLERDEVICEREMOVED`,
/// `SDL_CONTROLLERDEVICEREMAPPED`.
#[derive(Clone, Copy, Debug, PartialEq, Eq, Structural)]
pub struct SDL_ControllerDeviceEvent {
    pub event_type: SDL_EventType,
    pub timestamp: u32,
    pub which: i32,
}

/// Touch movement. Tags: `SDL_FINGERMOTION`, `SDL_FINGERDOWN`, `SDL_FINGERUP`.
/// The coordinate and pressure fields carry the raw bit patterns of the
/// native 32-bit floats; interpreting them as numbers is left to the caller.
#[derive(Clone, Copy, Debug, PartialEq, Eq, Structural)]
pub struct SDL_TouchFingerEvent {
    pub event_type: SDL_EventType,
    pub timestamp: u32,
    pub touchId: i64,
    pub fingerId: i64,
    pub x: u32,
    pub y: u32,
    pub dx: u32,
    pub dy: u32,
    pub pressure: u32,
}

/// Multi-finger gesture. Tag: `SDL_MULTIGESTURE`. The rotation, pinch and
/// coordinate fields carry the raw bit patterns of the native 32-bit floats.
#[derive(Clone, Copy, Debug, PartialEq, Eq, Structural)]
pub struct SDL_MultiGestureEvent {
    pub event_type: SDL_EventType,
    pub timestamp: u32,
    pub touchId: i64,
    pub dTheta: u32,
    pub dDist: u32,
    pub x: u32,
    pub y: u32,
    pub numFingers: u16,
}

/// Recognised template gesture. Tag: `SDL_DOLLARGESTURE`. The error and
/// coordinate fields carry the raw bit patterns of the native 32-bit floats.
#[derive(Clone, Copy, Debug, PartialEq, Eq, Structural)]
pub struct SDL_DollarGestureEvent {
    pub event_type: SDL_EventType,
    pub timestamp: u32,
    pub touchId: i64,
    pub gestureId: i64,
    pub numFingers: u32,
    pub error: u32,
    pub x: u32,
    pub y: u32,
}

/// A file dropped on a window. Tag: `SDL_DROPFILE`. The field carries the raw
/// address of a native string that is only valid for the duration of the poll
/// that produced the record; only the unverified boundary may read through it.
#[derive(Clone, Copy, Debug, PartialEq, Eq, Structural)]
pub struct SDL_DropEvent {
    pub event_type: SDL_EventType,
    pub timestamp: u32,
    pub file: u64,
}

/// The program asked to quit. Tag: `SDL_QUIT`.
#[derive(Clone, Copy, Debug, PartialEq, Eq, Structural)]
pub struct SDL_QuitEvent {
    pub event_type: SDL_EventType,
    pub timestamp: u32,
}

/// An operating-system event; it carries only the common prefix.
#[derive(Clone, Copy, Debug, PartialEq, Eq, Structural)]
pub struct SDL_OSEvent {
    pub event_type: SDL_EventType,
    pub timestamp: u32,
}

/// Application-defined event. Tags: the user range. The two data fields carry
/// raw native addresses that only the unverified boundary may read through.
#[derive(Clone, Copy, Debug, PartialEq, Eq, Structural)]
pub struct SDL_UserEvent {
    pub event_type: SDL_EventType,
    pub timestamp: u32,
    /// The associated window, if any.
    pub windowID: u32,
    pub code: i32,
    pub data1: u64,
    pub data2: u64,
}

/// Window-system specific event. Tag: `SDL_SYSWMEVENT`. The field carries the
/// raw address of a native message.
#[derive(Clone, Copy, Debug, PartialEq, Eq, Structural)]
pub struct SDL_SysWMEvent {
    pub event_type: SDL_EventType,
    pub timestamp: u32,
    pub msg: u64,
}

/// The action taken by the native queue's peep operation.
#[derive(Clone, Copy, Debug, PartialEq, Eq, Structural)]
pub enum SDL_eventaction {
    SDL_ADDEVENT,
    SDL_PEEKEVENT,
    SDL_GETEVENT,
}

// ------------------------------------------------------------------
// The fixed-size event record and its payload views
// ------------------------------------------------------------------

/// The fixed byte size of the native event block.
pub const SDL_EVENT_SIZE: usize = 56;

/// The bytes of the block that remain after the common tag and timestamp
/// prefix.
pub const SDL_EVENT_DATA_SIZE: usize = SDL_EVENT_SIZE - 8;

/// A generic event: the native union surfaced as its common prefix plus the
/// remaining payload bytes. The tag and timestamp occupy the first eight
/// bytes identically across every payload shape, so they are hoisted out as
/// typed fields; each payload view interprets the remaining bytes at the
/// offsets of its shape and never reads past the fixed block size.
#[derive(Clone, Debug, PartialEq, Eq)]
pub struct SDL_Event {
    /// The event type.
    pub event_type: SDL_EventType,
    /// The timestamp of when the event was triggered, in milliseconds since
    /// library initialisation.
    pub timestamp: u32,
    /// The payload bytes following the common prefix.
    pub data: Vec<u8>,
}

impl SDL_Event {
    /// The payload bytes following the common prefix.
    pub open spec fn data_bytes(&self) -> Seq<u8> {
        self.data@
    }

    /// A record is well formed when it carries exactly the payload bytes of
    /// the fixed native block.
    pub open spec fn wf(&self) -> bool {
        self.data_bytes().len() == SDL_EVENT_DATA_SIZE
    }

    /// Assemble a record from its common prefix and its payload bytes.
    pub fn new(event_type: SDL_EventType, timestamp: u32, data: Vec<u8>) -> (r: SDL_Event)
        requires
            data@.len() == SDL_EVENT_DATA_SIZE,
        ensures
            r.wf(),
            r.event_type == event_type,
            r.timestamp == timestamp,
            r.data_bytes() == data@,
    {
        SDL_Event { event_type, timestamp, data }
    }

    /// Read a record out of a full native block: the tag from the first four
    /// bytes, the timestamp from the next four, the payload from the rest.
    pub fn from_bytes(bytes: &Vec<u8>) -> (r: SDL_Event)
        requires
            bytes@.len() == SDL_EVENT_SIZE,
        ensures
            r.wf(),
            r.event_type.bits == spec_u32_le(bytes@, 0),
            r.timestamp == spec_u32_le(bytes@, 4),
            r.data_bytes() == bytes@.subrange(8, SDL_EVENT_SIZE as int),
    {
        let event_type = SDL_EventType { bits: read_u32_le(bytes, 0) };
        let timestamp = read_u32_le(bytes, 4);
        let mut data: Vec<u8> = Vec::new();
        let mut i: usize = 0;
        proof {
            assert(data@ =~= bytes@.subrange(8, 8));
        }
        while i < SDL_EVENT_DATA_SIZE
            invariant
                bytes@.len() == SDL_EVENT_SIZE,
                i <= SDL_EVENT_DATA_SIZE,
                data@ == bytes@.subrange(8, 8 + i as int),
            decreases SDL_EVENT_DATA_SIZE - i,
        {
            data.push(read_u8(bytes, 8 + i));
            i = i + 1;
            proof {
                assert(data@ =~= bytes@.subrange(8, 8 + i as int));
            }
        }
        SDL_Event { event_type, timestamp, data }
    }

    /// Copy the 32 text bytes that both text payload shapes carry at the same
    /// offset.
    fn copy_text(&self) -> (r: Vec<u8>)
        requires
            self.wf(),
        ensures
            r@ == self.data_bytes().subrange(4, 36),
    {
        let mut text: Vec<u8> = Vec::new();
        let mut i: usize = 0;
        proof {
            assert(text@ =~= self.data_bytes().subrange(4, 4));
        }
        while i < 32
            invariant
                self.wf(),
                i <= 32,
                text@ == self.data_bytes().subrange(4, 4 + i as int),
            decreases 32 - i,
        {
            text.push(read_u8(&self.data, 4 + i));
            i = i + 1;
            proof {
                assert(text@ =~= self.data_bytes().subrange(4, 4 + i as int));
            }
        }
        text
    }

    // What each payload view reads from a well-formed record.

    pub open spec fn spec_window(&self) -> SDL_WindowEvent {
        SDL_WindowEvent {
            event_type: self.event_type,
            timestamp: self.timestamp,
            windowID: spec_u32_le(self.data_bytes(), 0),
            event: self.data_bytes()[4],
            data1: spec_i32_le(self.data_bytes(), 8),
            data2: spec_i32_le(self.data_bytes(), 12),
        }
    }

    pub open spec fn spec_key(&self) -> SDL_KeyboardEvent {
        SDL_KeyboardEvent {
            event_type: self.event_type,
            timestamp: self.timestamp,
            windowID: spec_u32_le(self.data_bytes(), 0),
            state: spec_button_state(self.data_bytes()[4]),
            repeat: self.data_bytes()[5],
            keysym: SDL_Keysym {
                scancode: spec_u32_le(self.data_bytes(), 8),
                sym: spec_i32_le(self.data_bytes(), 12),
                key_mod: spec_u16_le(self.data_bytes(), 16),
                unused: spec_u32_le(self.data_bytes(), 20),
            },
        }
    }

    /// What the text-editing view reads from a well-formed record; stated as
    /// a relation because the text bytes live in a fresh vector.
    pub open spec fn spec_edit_matches(&self, p: SDL_TextEditingEvent) -> bool {
        p.event_type == self.event_type && p.timestamp == self.timestamp
            && p.windowID == spec_u32_le(self.data_bytes(), 0)
            && p.text@ == self.data_bytes().subrange(4, 36)
            && p.start == spec_i32_le(self.data_bytes(), 36)
            && p.length == spec_i32_le(self.data_bytes(), 40)
    }

    /// What the text-input view reads from a well-formed record.
    pub open spec fn spec_text_matches(&self, p: SDL_TextInputEvent) -> bool {
        p.event_type == self.event_type && p.timestamp == self.timestamp
            && p.windowID == spec_u32_le(self.data_bytes(), 0)
            && p.text@ == self.data_bytes().subrange(4, 36)
    }

    pub open spec fn spec_motion(&self) -> SDL_MouseMotionEvent {
        SDL_MouseMotionEvent {
            event_type: self.event_type,
            timestamp: self.timestamp,
            windowID: spec_u32_le(self.data_bytes(), 0),
            which: spec_u32_le(self.data_bytes(), 4),
            state: spec_u32_le(self.data_bytes(), 8),
            x: spec_i32_le(self.data_bytes(), 12),
            y: spec_i32_le(self.data_bytes(), 16),
            xrel: spec_i32_le(self.data_bytes(), 20),
            yrel: spec_i32_le(self.data_bytes(), 24),
        }
    }

    pub open spec fn spec_button(&self) -> SDL_MouseButtonEvent {
        SDL_MouseButtonEvent {
            event_type: self.event_type,
            timestamp: self.timestamp,
            windowID: spec_u32_le(self.data_bytes(), 0),
            which: spec_u32_le(self.data_bytes(), 4),
            button: self.data_bytes()[8],
            state: spec_button_state(self.data_bytes()[9]),
            x: spec_i32_le(self.data_bytes(), 12),
            y: spec_i32_le(self.data_bytes(), 16),
        }
    }

    pub open spec fn spec_wheel(&self) -> SDL_MouseWheelEvent {
        SDL_MouseWheelEvent {
            event_type: self.event_type,
            timestamp: self.timestamp,
            windowID: spec_u32_le(self.data_bytes(), 0),
            which: spec_u32_le(self.data_bytes(), 4),
            x: spec_i32_le(self.data_bytes(), 8),
            y: spec_i32_le(self.data_bytes(), 12),
        }
    }

    pub open spec fn spec_jaxis(&self) -> SDL_JoyAxisEvent {
        SDL_JoyAxisEvent {
            event_type: self.event_type,
            timestamp: self.timestamp,
            which: spec_i32_le(self.data_bytes(), 0),
            axis: self.data_bytes()[4],
            value: spec_i16_le(self.data_bytes(), 8),
        }
    }

    pub open spec fn spec_jball(&self) -> SDL_JoyBallEvent {
        SDL_JoyBallEvent {
            event_type: self.event_type,
            timestamp: self.timestamp,
            which: spec_i32_le(self.data_bytes(), 0),
            ball: self.data_bytes()[4],
            xrel: spec_i16_le(self.data_bytes(), 8),
            yrel: spec_i16_le(self.data_bytes(), 10),
        }
    }

    pub open spec fn spec_jhat(&self) -> SDL_JoyHatEvent {
        SDL_JoyHatEvent {
            event_type: self.event_type,
            timestamp: self.timestamp,
            which: spec_i32_le(self.data_bytes(), 0),
            hat: self.data_bytes()[4],
            value: self.data_bytes()[5],
        }
    }

    pub open spec fn spec_jbutton(&self) -> SDL_JoyButtonEvent {
        SDL_JoyButtonEvent {
            event_type: self.event_type,
            timestamp: self.timestamp,
            which: spec_i32_le(self.data_bytes(), 0),
            button: self.data_bytes()[4],
            state: spec_button_state(self.data_bytes()[5]),
        }
    }

    pub open spec fn spec_jdevice(&self) -> SDL_JoyDeviceEvent {
        SDL_JoyDeviceEvent {
            event_type: self.event_type,
            timestamp: self.timestamp,
            which: spec_i32_le(self.data_bytes(), 0),
        }
    }

    pub open spec fn spec_caxis(&self) -> SDL_ControllerAxisEvent {
        SDL_ControllerAxisEvent {
            event_type: self.event_type,
            timestamp: self.timestamp,
            which: spec_i32_le(self.data_bytes(), 0),
            axis: self.data_bytes()[4],
            value: spec_i16_le(self.data_bytes(), 8),
        }
    }

    pub open spec fn spec_cbutton(&self) -> SDL_ControllerButtonEvent {
        SDL_ControllerButtonEvent {
            event_type: self.event_type,
            timestamp: self.timestamp,
            which: spec_i32_le(self.data_bytes(), 0),
            button: self.data_bytes()[4],
            state: spec_button_state(self.data_bytes()[5]),
        }
    }

    pub open spec fn spec_cdevice(&self) -> SDL_ControllerDeviceEvent {
        SDL_ControllerDeviceEvent {
            event_type: self.event_type,
            timestamp: self.timestamp,
            which: spec_i32_le(self.data_bytes(), 0),
        }
    }

    pub open spec fn spec_quit(&self) -> SDL_QuitEvent {
        SDL_QuitEvent { event_type: self.event_type, timestamp: self.timestamp }
    }

    pub open spec fn spec_user(&self) -> SDL_UserEvent {
        SDL_UserEvent {
            event_type: self.event_type,
            timestamp: self.timestamp,
            windowID: spec_u32_le(self.data_bytes(), 0),
            code: spec_i32_le(self.data_bytes(), 4),
            data1: spec_u64_le(self.data_bytes(), 8),
            data2: spec_u64_le(self.data_bytes(), 16),
        }
    }

    pub open spec fn spec_syswm(&self) -> SDL_SysWMEvent {
        SDL_SysWMEvent {
            event_type: self.event_type,
            timestamp: self.timestamp,
            msg: spec_u64_le(self.data_bytes(), 0),
        }
    }

    pub open spec fn spec_tfinger(&self) -> SDL_TouchFingerEvent {
        SDL_TouchFingerEvent {
            event_type: self.event_type,
            timestamp: self.timestamp,
            touchId: spec_i64_le(self.data_bytes(), 0),
            fingerId: spec_i64_le(self.data_bytes(), 8),
            x: spec_u32_le(self.data_bytes(), 16),
            y: spec_u32_le(self.data_bytes(), 20),
            dx: spec_u32_le(self.data_bytes(), 24),
            dy: spec_u32_le(self.data_bytes(), 28),
            pressure: spec_u32_le(self.data_bytes(), 32),
        }
    }

    pub open spec fn spec_mgesture(&self) -> SDL_MultiGestureEvent {
        SDL_MultiGestureEvent {
            event_type: self.event_type,
            timestamp: self.timestamp,
            touchId: spec_i64_le(self.data_bytes(), 0),
            dTheta: spec_u32_le(self.data_bytes(), 8),
            dDist: spec_u32_le(self.data_bytes(), 12),
            x: spec_u32_le(self.data_bytes(), 16),
            y: spec_u32_le(self.data_bytes(), 20),
            numFingers: spec_u16_le(self.data_bytes(), 24),
        }
    }

    pub open spec fn spec_dgesture(&self) -> SDL_DollarGestureEvent {
        SDL_DollarGestureEvent {
            event_type: self.event_type,
            timestamp: self.timestamp,
            touchId: spec_i64_le(self.data_bytes(), 0),
            gestureId: spec_i64_le(self.data_bytes(), 8),
            numFingers: spec_u32_le(self.data_bytes(), 16),
            error: spec_u32_le(self.data_bytes(), 20),
            x: spec_u32_le(self.data_bytes(), 24),
            y: spec_u32_le(self.data_bytes(), 28),
        }
    }

    pub open spec fn spec_drop_(&self) -> SDL_DropEvent {
        SDL_DropEvent {
            event_type: self.event_type,
            timestamp: self.timestamp,
            file: spec_u64_le(self.data_bytes(), 0),
        }
    }
}

/// Unchecked payload views. Each one demands, as a precondition, that the
/// caller has already established that the tag matches the requested shape:
/// what the native union makes undefined behaviour is a verified obligation
/// here.
impl SDL_Event {
    pub fn window(&self) -> (r: SDL_WindowEvent)
        requires
            self.wf(),
            spec_is_window(self.event_type.bits),
        ensures
            r == self.spec_window(),
    {
        SDL_WindowEvent {
            event_type: self.event_type,
            timestamp: self.timestamp,
            windowID: read_u32_le(&self.data, 0),
            event: read_u8(&self.data, 4),
            data1: read_i32_le(&self.data, 8),
            data2: read_i32_le(&self.data, 12),
        }
    }

    pub fn key(&self) -> (r: SDL_KeyboardEvent)
        requires
            self.wf(),
            spec_is_key(self.event_type.bits),
        ensures
            r == self.spec_key(),
    {
        SDL_KeyboardEvent {
            event_type: self.event_type,
            timestamp: self.timestamp,
            windowID: read_u32_le(&self.data, 0),
            state: SDL_ButtonState::from_byte(read_u8(&self.data, 4)),
            repeat: read_u8(&self.data, 5),
            keysym: SDL_Keysym {
                scancode: read_u32_le(&self.data, 8),
                sym: read_i32_le(&self.data, 12),
                key_mod: read_u16_le(&self.data, 16),
                unused: read_u32_le(&self.data, 20),
            },
        }
    }

    pub fn edit(&self) -> (r: SDL_TextEditingEvent)
        requires
            self.wf(),
            spec_is_edit(self.event_type.bits),
        ensures
            self.spec_edit_matches(r),
    {
        SDL_TextEditingEvent {
            event_type: self.event_type,
            timestamp: self.timestamp,
            windowID: read_u32_le(&self.data, 0),
            text: self.copy_text(),
            start: read_i32_le(&self.data, 36),
            length: read_i32_le(&self.data, 40),
        }
    }

    pub fn text(&self) -> (r: SDL_TextInputEvent)
        requires
            self.wf(),
            spec_is_text(self.event_type.bits),
        ensures
            self.spec_text_matches(r),
    {
        SDL_TextInputEvent {
            event_type: self.event_type,
            timestamp: self.timestamp,
            windowID: read_u32_le(&self.data, 0),
            text: self.copy_text(),
        }
    }

    pub fn motion(&self) -> (r: SDL_MouseMotionEvent)
        requires
            self.wf(),
            spec_is_motion(self.event_type.bits),
        ensures
            r == self.spec_motion(),
    {
        SDL_MouseMotionEvent {
            event_type: self.event_type,
            timestamp: self.timestamp,
            windowID: read_u32_le(&self.data, 0),
            which: read_u32_le(&self.data, 4),
            state: read_u32_le(&self.data, 8),
            x: read_i32_le(&self.data, 12),
            y: read_i32_le(&self.data, 16),
            xrel: read_i32_le(&self.data, 20),
            yrel: read_i32_le(&self.data, 24),
        }
    }

    pub fn button(&self) -> (r: SDL_MouseButtonEvent)
        requires
            self.wf(),
            spec_is_button(self.event_type.bits),
        ensures
            r == self.spec_button(),
    {
        SDL_MouseButtonEvent {
            event_type: self.event_type,
            timestamp: self.timestamp,
            windowID: read_u32_le(&self.data, 0),
            which: read_u32_le(&self.data, 4),
            button: read_u8(&self.data, 8),
            state: SDL_ButtonState::from_byte(read_u8(&self.data, 9)),
            x: read_i32_le(&self.data, 12),
            y: read_i32_le(&self.data, 16),
        }
    }

    pub fn wheel(&self) -> (r: SDL_MouseWheelEvent)
        requires
            self.wf(),
            spec_is_wheel(self.event_type.bits),
        ensures
            r == self.spec_wheel(),
    {
        SDL_MouseWheelEvent {
            event_type: self.event_type,
            timestamp: self.timestamp,
            windowID: read_u32_le(&self.data, 0),
            which: read_u32_le(&self.data, 4),
            x: read_i32_le(&self.data, 8),
            y: read_i32_le(&self.data, 12),
        }
    }

    pub fn jaxis(&self) -> (r: SDL_JoyAxisEvent)
        requires
            self.wf(),
            spec_is_jaxis(self.event_type.bits),
        ensures
            r == self.spec_jaxis(),
    {
        SDL_JoyAxisEvent {
            event_type: self.event_type,
            timestamp: self.timestamp,
            which: read_i32_le(&self.data, 0),
            axis: read_u8(&self.data, 4),
            value: read_i16_le(&self.data, 8),
        }
    }

    pub fn jball(&self) -> (r: SDL_JoyBallEvent)
        requires
            self.wf(),
            spec_is_jball(self.event_type.bits),
        ensures
            r == self.spec_jball(),
    {
        SDL_JoyBallEvent {
            event_type: self.event_type,
            timestamp: self.timestamp,
            which: read_i32_le(&self.data, 0),
            ball: read_u8(&self.data, 4),
            xrel: read_i16_le(&self.data, 8),
            yrel: read_i16_le(&self.data, 10),
        }
    }

    pub fn jhat(&self) -> (r: SDL_JoyHatEvent)
        requires
            self.wf(),
            spec_is_jhat(self.event_type.bits),
        ensures
            r == self.spec_jhat(),
    {
        SDL_JoyHatEvent {
            event_type: self.event_type,
            timestamp: self.timestamp,
            which: read_i32_le(&self.data, 0),
            hat: read_u8(&self.data, 4),
            value: read_u8(&self.data, 5),
        }
    }

    pub fn jbutton(&self) -> (r: SDL_JoyButtonEvent)
        requires
            self.wf(),
            spec_is_jbutton(self.event_type.bits),
        ensures
            r == self.spec_jbutton(),
    {
        SDL_JoyButtonEvent {
            event_type: self.event_type,
            timestamp: self.timestamp,
            which: read_i32_le(&self.data, 0),
            button: read_u8(&self.data, 4),
            state: SDL_ButtonState::from_byte(read_u8(&self.data, 5)),
        }
    }

    pub fn jdevice(&self) -> (r: SDL_JoyDeviceEvent)
        requires
            self.wf(),
            spec_is_jdevice(self.event_type.bits),
        ensures
            r == self.spec_jdevice(),
    {
        SDL_JoyDeviceEvent {
            event_type: self.event_type,
            timestamp: self.timestamp,
            which: read_i32_le(&self.data, 0),
        }
    }

    pub fn caxis(&self) -> (r: SDL_ControllerAxisEvent)
        requires
            self.wf(),
            spec_is_caxis(self.event_type.bits),
        ensures
            r == self.spec_caxis(),
    {
        SDL_ControllerAxisEvent {
            event_type: self.event_type,
            timestamp: self.timestamp,
            which: read_i32_le(&self.data, 0),
            axis: read_u8(&self.data, 4),
            value: read_i16_le(&self.data, 8),
        }
    }

    pub fn cbutton(&self) -> (r: SDL_ControllerButtonEvent)
        requires
            self.wf(),
            spec_is_cbutton(self.event_type.bits),
        ensures
            r == self.spec_cbutton(),
    {
        SDL_ControllerButtonEvent {
            event_type: self.event_type,
            timestamp: self.timestamp,
            which: read_i32_le(&self.data, 0),
            button: read_u8(&self.data, 4),
            state: SDL_ButtonState::from_byte(read_u8(&self.data, 5)),
        }
    }

    pub fn cdevice(&self) -> (r: SDL_ControllerDeviceEvent)
        requires
            self.wf(),
            spec_is_cdevice(self.event_type.bits),
        ensures
            r == self.spec_cdevice(),
    {
        SDL_ControllerDeviceEvent {
            event_type: self.event_type,
            timestamp: self.timestamp,
            which: read_i32_le(&self.data, 0),
        }
    }

    pub fn quit(&self) -> (r: SDL_QuitEvent)
        requires
            self.wf(),
            spec_is_quit(self.event_type.bits),
        ensures
            r == self.spec_quit(),
    {
        SDL_QuitEvent { event_type: self.event_type, timestamp: self.timestamp }
    }

    pub fn user(&self) -> (r: SDL_UserEvent)
        requires
            self.wf(),
            spec_is_user(self.event_type.bits),
        ensures
            r == self.spec_user(),
    {
        SDL_UserEvent {
            event_type: self.event_type,
            timestamp: self.timestamp,
            windowID: read_u32_le(&self.data, 0),
            code: read_i32_le(&self.data, 4),
            data1: read_u64_le(&self.data, 8),
            data2: read_u64_le(&self.data, 16),
        }
    }

    pub fn syswm(&self) -> (r: SDL_SysWMEvent)
        requires
            self.wf(),
            spec_is_syswm(self.event_type.bits),
        ensures
            r == self.spec_syswm(),
    {
        SDL_SysWMEvent {
            event_type: self.event_type,
            timestamp: self.timestamp,
            msg: read_u64_le(&self.data, 0),
        }
    }

    pub fn tfinger(&self) -> (r: SDL_TouchFingerEvent)
        requires
            self.wf(),
            spec_is_tfinger(self.event_type.bits),
        ensures
            r == self.spec_tfinger(),
    {
        SDL_TouchFingerEvent {
            event_type: self.event_type,
            timestamp: self.timestamp,
            touchId: read_i64_le(&self.data, 0),
            fingerId: read_i64_le(&self.data, 8),
            x: read_u32_le(&self.data, 16),
            y: read_u32_le(&self.data, 20),
            dx: read_u32_le(&self.data, 24),
            dy: read_u32_le(&self.data, 28),
            pressure: read_u32_le(&self.data, 32),
        }
    }

    pub fn mgesture(&self) -> (r: SDL_MultiGestureEvent)
        requires
            self.wf(),
            spec_is_mgesture(self.event_type.bits),
        ensures
            r == self.spec_mgesture(),
    {
        SDL_MultiGestureEvent {
            event_type: self.event_type,
            timestamp: self.timestamp,
            touchId: read_i64_le(&self.data, 0),
            dTheta: read_u32_le(&self.data, 8),
            dDist: read_u32_le(&self.data, 12),
            x: read_u32_le(&self.data, 16),
            y: read_u32_le(&self.data, 20),
            numFingers: read_u16_le(&self.data, 24),
        }
    }

    pub fn dgesture(&self) -> (r: SDL_DollarGestureEvent)
        requires
            self.wf(),
            spec_is_dgesture(self.event_type.bits),
        ensures
            r == self.spec_dgesture(),
    {
        SDL_DollarGestureEvent {
            event_type: self.event_type,
            timestamp: self.timestamp,
            touchId: read_i64_le(&self.data, 0),
            gestureId: read_i64_le(&self.data, 8),
            numFingers: read_u32_le(&self.data, 16),
            error: read_u32_le(&self.data, 20),
            x: read_u32_le(&self.data, 24),
            y: read_u32_le(&self.data, 28),
        }
    }

    pub fn drop_(&self) -> (r: SDL_DropEvent)
        requires
            self.wf(),
            spec_is_drop_(self.event_type.bits),
        ensures
            r == self.spec_drop_(),
    {
        SDL_DropEvent {
            event_type: self.event_type,
            timestamp: self.timestamp,
            file: read_u64_le(&self.data, 0),
        }
    }
}

/// Checked payload views: each tests the tag predicate first and exposes the
/// typed view only on a match. A mismatch is an expected outcome of probing,
/// so it is absence, not an error. When a view is returned, its common prefix
/// equals the record's tag and timestamp.
impl SDL_Event {
    pub fn get_window(&self) -> (r: Option<SDL_WindowEvent>)
        requires
            self.wf(),
        ensures
            r is Some <==> spec_is_window(self.event_type.bits),
            r matches Some(p) ==> p == self.spec_window() && p.event_type == self.event_type
                && p.timestamp == self.timestamp,
    {
        if self.event_type.is_window() {
            Some(self.window())
        } else {
            None
        }
    }

    pub fn get_key(&self) -> (r: Option<SDL_KeyboardEvent>)
        requires
            self.wf(),
        ensures
            r is Some <==> spec_is_key(self.event_type.bits),
            r matches Some(p) ==> p == self.spec_key() && p.event_type == self.event_type
                && p.timestamp == self.timestamp,
    {
        if self.event_type.is_key() {
            Some(self.key())
        } else {
            None
        }
    }

    pub fn get_edit(&self) -> (r: Option<SDL_TextEditingEvent>)
        requires
            self.wf(),
        ensures
            r is Some <==> spec_is_edit(self.event_type.bits),
            r matches Some(p) ==> self.spec_edit_matches(p) && p.event_type == self.event_type
                && p.timestamp == self.timestamp,
    {
        if self.event_type.is_edit() {
            Some(self.edit())
        } else {
            None
        }
    }

    pub fn get_text(&self) -> (r: Option<SDL_TextInputEvent>)
        requires
            self.wf(),
        ensures
            r is Some <==> spec_is_text(self.event_type.bits),
            r matches Some(p) ==> self.spec_text_matches(p) && p.event_type == self.event_type
                && p.timestamp == self.timestamp,
    {
        if self.event_type.is_text() {
            Some(self.text())
        } else {
            None
        }
    }

    pub fn get_motion(&self) -> (r: Option<SDL_MouseMotionEvent>)
        requires
            self.wf(),
        ensures
            r is Some <==> spec_is_motion(self.event_type.bits),
            r matches Some(p) ==> p == self.spec_motion() && p.event_type == self.event_type
                && p.timestamp == self.timestamp,
    {
        if self.event_type.is_motion() {
            Some(self.motion())
        } else {
            None
        }
    }

    pub fn get_button(&self) -> (r: Option<SDL_MouseButtonEvent>)
        requires
            self.wf(),
        ensures
            r is Some <==> spec_is_button(self.event_type.bits),
            r matches Some(p) ==> p == self.spec_button() && p.event_type == self.event_type
                && p.timestamp == self.timestamp,
    {
        if self.event_type.is_button() {
            Some(self.button())
        } else {
            None
        }
    }

    pub fn get_wheel(&self) -> (r: Option<SDL_MouseWheelEvent>)
        requires
            self.wf(),
        ensures
            r is Some <==> spec_is_wheel(self.event_type.bits),
            r matches Some(p) ==> p == self.spec_wheel() && p.event_type == self.event_type
                && p.timestamp == self.timestamp,
    {
        if self.event_type.is_wheel() {
            Some(self.wheel())
        } else {
            None
        }
    }

    pub fn get_jaxis(&self) -> (r: Option<SDL_JoyAxisEvent>)
        requires
            self.wf(),
        ensures
            r is Some <==> spec_is_jaxis(self.event_type.bits),
            r matches Some(p) ==> p == self.spec_jaxis() && p.event_type == self.event_type
                && p.timestamp == self.timestamp,
    {
        if self.event_type.is_jaxis() {
            Some(self.jaxis())
        } else {
            None
        }
    }

    pub fn get_jball(&self) -> (r: Option<SDL_JoyBallEvent>)
        requires
            self.wf(),
        ensures
            r is Some <==> spec_is_jball(self.event_type.bits),
            r matches Some(p) ==> p == self.spec_jball() && p.event_type == self.event_type
                && p.timestamp == self.timestamp,
    {
        if self.event_type.is_jball() {
            Some(self.jball())
        } else {
            None
        }
    }

    pub fn get_jhat(&self) -> (r: Option<SDL_JoyHatEvent>)
        requires
            self.wf(),
        ensures
            r is Some <==> spec_is_jhat(self.event_type.bits),
            r matches Some(p) ==> p == self.spec_jhat() && p.event_type == self.event_type
                && p.timestamp == self.timestamp,
    {
        if self.event_type.is_jhat() {
            Some(self.jhat())
        } else {
            None
        }
    }

    pub fn get_jbutton(&self) -> (r: Option<SDL_JoyButtonEvent>)
        requires
            self.wf(),
        ensures
            r is Some <==> spec_is_jbutton(self.event_type.bits),
            r matches Some(p) ==> p == self.spec_jbutton() && p.event_type == self.event_type
                && p.timestamp == self.timestamp,
    {
        if self.event_type.is_jbutton() {
            Some(self.jbutton())
        } else {
            None
        }
    }

    pub fn get_jdevice(&self) -> (r: Option<SDL_JoyDeviceEvent>)
        requires
            self.wf(),
        ensures
            r is Some <==> spec_is_jdevice(self.event_type.bits),
            r matches Some(p) ==> p == self.spec_jdevice() && p.event_type == self.event_type
                && p.timestamp == self.timestamp,
    {
        if self.event_type.is_jdevice() {
            Some(self.jdevice())
        } else {
            None
        }
    }

    pub fn get_caxis(&self) -> (r: Option<SDL_ControllerAxisEvent>)
        requires
            self.wf(),
        ensures
            r is Some <==> spec_is_caxis(self.event_type.bits),
            r matches Some(p) ==> p == self.spec_caxis() && p.event_type == self.event_type
                && p.timestamp == self.timestamp,
    {
        if self.event_type.is_caxis() {
            Some(self.caxis())
        } else {
            None
        }
    }

    pub fn get_cbutton(&self) -> (r: Option<SDL_ControllerButtonEvent>)
        requires
            self.wf(),
        ensures
            r is Some <==> spec_is_cbutton(self.event_type.bits),
            r matches Some(p) ==> p == self.spec_cbutton() && p.event_type == self.event_type
                && p.timestamp == self.timestamp,
    {
        if self.event_type.is_cbutton() {
            Some(self.cbutton())
        } else {
            None
        }
    }

    pub fn get_cdevice(&self) -> (r: Option<SDL_ControllerDeviceEvent>)
        requires
            self.wf(),
        ensures
            r is Some <==> spec_is_cdevice(self.event_type.bits),
            r matches Some(p) ==> p == self.spec_cdevice() && p.event_type == self.event_type
                && p.timestamp == self.timestamp,
    {
        if self.event_type.is_cdevice() {
            Some(self.cdevice())
        } else {
            None
        }
    }

    pub fn get_quit(&self) -> (r: Option<SDL_QuitEvent>)
        requires
            self.wf(),
        ensures
            r is Some <==> spec_is_quit(self.event_type.bits),
            r matches Some(p) ==> p == self.spec_quit() && p.event_type == self.event_type
                && p.timestamp == self.timestamp,
    {
        if self.event_type.is_quit() {
            Some(self.quit())
        } else {
            None
        }
    }

    pub fn get_user(&self) -> (r: Option<SDL_UserEvent>)
        requires
            self.wf(),
        ensures
            r is Some <==> spec_is_user(self.event_type.bits),
            r matches Some(p) ==> p == self.spec_user() && p.event_type == self.event_type
                && p.timestamp == self.timestamp,
    {
        if self.event_type.is_user() {
            Some(self.user())
        } else {
            None
        }
    }

    pub fn get_syswm(&self) -> (r: Option<SDL_SysWMEvent>)
        requires
            self.wf(),
        ensures
            r is Some <==> spec_is_syswm(self.event_type.bits),
            r matches Some(p) ==> p == self.spec_syswm() && p.event_type == self.event_type
                && p.timestamp == self.timestamp,
    {
        if self.event_type.is_syswm() {
            Some(self.syswm())
        } else {
            None
        }
    }

    pub fn get_tfinger(&self) -> (r: Option<SDL_TouchFingerEvent>)
        requires
            self.wf(),
        ensures
            r is Some <==> spec_is_tfinger(self.event_type.bits),
            r matches Some(p) ==> p == self.spec_tfinger() && p.event_type == self.event_type
                && p.timestamp == self.timestamp,
    {
        if self.event_type.is_tfinger() {
            Some(self.tfinger())
        } else {
            None
        }
    }

    pub fn get_mgesture(&self) -> (r: Option<SDL_MultiGestureEvent>)
        requires
            self.wf(),
        ensures
            r is Some <==> spec_is_mgesture(self.event_type.bits),
            r matches Some(p) ==> p == self.spec_mgesture() && p.event_type == self.event_type
                && p.timestamp == self.timestamp,
    {
        if self.event_type.is_mgesture() {
            Some(self.mgesture())
        } else {
            None
        }
    }

    pub fn get_dgesture(&self) -> (r: Option<SDL_DollarGestureEvent>)
        requires
            self.wf(),
        ensures
            r is Some <==> spec_is_dgesture(self.event_type.bits),
            r matches Some(p) ==> p == self.spec_dgesture() && p.event_type == self.event_type
                && p.timestamp == self.timestamp,
    {
        if self.event_type.is_dgesture() {
            Some(self.dgesture())
        } else {
            None
        }
    }

    pub fn get_drop_(&self) -> (r: Option<SDL_DropEvent>)
        requires
            self.wf(),
        ensures
            r is Some <==> spec_is_drop_(self.event_type.bits),
            r matches Some(p) ==> p == self.spec_drop_() && p.event_type == self.event_type
                && p.timestamp == self.timestamp,
    {
        if self.event_type.is_drop_() {
            Some(self.drop_())
        } else {
            None
        }
    }
}

/// The number of bytes of the fixed block that a category's payload shape
/// occupies, counting the common prefix and the documented alignment padding.
/// The views above read only below these offsets.
pub open spec fn spec_payload_size(c: EventCategory) -> int {
    match c {
        EventCategory::Window => 24,
        EventCategory::Key => 32,
        EventCategory::Edit => 52,
        EventCategory::Text => 44,
        EventCategory::Motion => 36,
        EventCategory::Button => 28,
        EventCategory::Wheel => 24,
        EventCategory::JoyAxis => 20,
        EventCategory::JoyBall => 20,
        EventCategory::JoyHat => 16,
        EventCategory::JoyButton => 16,
        EventCategory::JoyDevice => 12,
        EventCategory::ControllerAxis => 20,
        EventCategory::ControllerButton => 16,
        EventCategory::ControllerDevice => 12,
        EventCategory::Quit => 8,
        EventCategory::User => 32,
        EventCategory::SysWm => 16,
        EventCategory::TouchFinger => 44,
        EventCategory::MultiGesture => 36,
        EventCategory::DollarGesture => 40,
        EventCategory::DropFile => 16,
    }
}

/// Every payload shape fits inside the fixed event block: no payload view
/// ever reads past its end.
pub proof fn lemma_payload_sizes_fit()
    ensures
        forall|c: EventCategory| 8 <= #[trigger] spec_payload_size(c) <= SDL_EVENT_SIZE,
{
}

} // verus!
