//! Window state flags and display modes: the bit catalog, the fold of a flag
//! list into a native mask, and the unfold of a native mask back into the
//! catalog's flags.

use vstd::prelude::*;

verus! {

pub const SDL_WINDOW_FULLSCREEN: u32 = 0x00000001;
pub const SDL_WINDOW_OPENGL: u32 = 0x00000002;
pub const SDL_WINDOW_SHOWN: u32 = 0x00000004;
pub const SDL_WINDOW_HIDDEN: u32 = 0x00000008;
pub const SDL_WINDOW_BORDERLESS: u32 = 0x00000010;
pub const SDL_WINDOW_RESIZABLE: u32 = 0x00000020;
pub const SDL_WINDOW_MINIMIZED: u32 = 0x00000040;
pub const SDL_WINDOW_MAXIMIZED: u32 = 0x00000080;
pub const SDL_WINDOW_INPUT_GRABBED: u32 = 0x00000100;
pub const SDL_WINDOW_INPUT_FOCUS: u32 = 0x00000200;
pub const SDL_WINDOW_MOUSE_FOCUS: u32 = 0x00000400;
/// Composite: fullscreen at the desktop's own resolution.
pub const SDL_WINDOW_FULLSCREEN_DESKTOP: u32 = SDL_WINDOW_FULLSCREEN | 0x00001000;
pub const SDL_WINDOW_FOREIGN: u32 = 0x00000800;

/// The opaque native window. The library refers to windows only through
/// identifiers carried in event payloads; the native handle itself lives
/// behind the unverified boundary.
#[derive(Clone, Copy, Debug)]
pub struct SDL_Window {}

/// The flags on a window.
#[derive(Clone, Copy, Debug, PartialEq, Eq, Structural)]
pub enum WindowFlags {
    Fullscreen,
    OpenGl,
    Shown,
    Hidden,
    Borderless,
    Resizable,
    Minimized,
    Maximized,
    InputGrabbed,
    InputFocus,
    MouseFocus,
    FullscreenDesktop,
    Foreign,
}

impl WindowFlags {
    /// The native mask bits of one flag.
    pub open spec fn spec_bits(self) -> u32 {
        match self {
            WindowFlags::Fullscreen => SDL_WINDOW_FULLSCREEN,
            WindowFlags::OpenGl => SDL_WINDOW_OPENGL,
            WindowFlags::Shown => SDL_WINDOW_SHOWN,
            WindowFlags::Hidden => SDL_WINDOW_HIDDEN,
            WindowFlags::Borderless => SDL_WINDOW_BORDERLESS,
            WindowFlags::Resizable => SDL_WINDOW_RESIZABLE,
            WindowFlags::Minimized => SDL_WINDOW_MINIMIZED,
            WindowFlags::Maximized => SDL_WINDOW_MAXIMIZED,
            WindowFlags::InputGrabbed => SDL_WINDOW_INPUT_GRABBED,
            WindowFlags::InputFocus => SDL_WINDOW_INPUT_FOCUS,
            WindowFlags::MouseFocus => SDL_WINDOW_MOUSE_FOCUS,
            WindowFlags::FullscreenDesktop => SDL_WINDOW_FULLSCREEN_DESKTOP,
            WindowFlags::Foreign => SDL_WINDOW_FOREIGN,
        }
    }

    /// The native mask bits of one flag.
    pub fn bits(self) -> (r: u32)
        ensures
            r == self.spec_bits(),
    {
        match self {
            WindowFlags::Fullscreen => SDL_WINDOW_FULLSCREEN,
            WindowFlags::OpenGl => SDL_WINDOW_OPENGL,
            WindowFlags::Shown => SDL_WINDOW_SHOWN,
            WindowFlags::Hidden => SDL_WINDOW_HIDDEN,
            WindowFlags::Borderless => SDL_WINDOW_BORDERLESS,
            WindowFlags::Resizable => SDL_WINDOW_RESIZABLE,
            WindowFlags::Minimized => SDL_WINDOW_MINIMIZED,
            WindowFlags::Maximized => SDL_WINDOW_MAXIMIZED,
            WindowFlags::InputGrabbed => SDL_WINDOW_INPUT_GRABBED,
            WindowFlags::InputFocus => SDL_WINDOW_INPUT_FOCUS,
            WindowFlags::MouseFocus => SDL_WINDOW_MOUSE_FOCUS,
            WindowFlags::FullscreenDesktop => SDL_WINDOW_FULLSCREEN_DESKTOP,
            WindowFlags::Foreign => SDL_WINDOW_FOREIGN,
        }
    }
}

/// The number of flags in the catalog.
pub const WINDOW_FLAG_COUNT: usize = 13;

/// The catalog of window flags, in the order the unfold reports them.
pub open spec fn spec_flag_catalog(k: int) -> WindowFlags {
    if k == 0 {
        WindowFlags::Fullscreen
    } else if k == 1 {
        WindowFlags::OpenGl
    } else if k == 2 {
        WindowFlags::Shown
    } else if k == 3 {
        WindowFlags::Hidden
    } else if k == 4 {
        WindowFlags::Borderless
    } else if k == 5 {
        WindowFlags::Resizable
    } else if k == 6 {
        WindowFlags::Minimized
    } else if k == 7 {
        WindowFlags::Maximized
    } else if k == 8 {
        WindowFlags::InputGrabbed
    } else if k == 9 {
        WindowFlags::InputFocus
    } else if k == 10 {
        WindowFlags::MouseFocus
    } else if k == 11 {
        WindowFlags::FullscreenDesktop
    } else {
        WindowFlags::Foreign
    }
}

fn flag_catalog(k: usize) -> (r: WindowFlags)
    requires
        k < WINDOW_FLAG_COUNT,
    ensures
        r == spec_flag_catalog(k as int),
{
    if k == 0 {
        WindowFlags::Fullscreen
    } else if k == 1 {
        WindowFlags::OpenGl
    } else if k == 2 {
        WindowFlags::Shown
    } else if k == 3 {
        WindowFlags::Hidden
    } else if k == 4 {
        WindowFlags::Borderless
    } else if k == 5 {
        WindowFlags::Resizable
    } else if k == 6 {
        WindowFlags::Minimized
    } else if k == 7 {
        WindowFlags::Maximized
    } else if k == 8 {
        WindowFlags::InputGrabbed
    } else if k == 9 {
        WindowFlags::InputFocus
    } else if k == 10 {
        WindowFlags::MouseFocus
    } else if k == 11 {
        WindowFlags::FullscreenDesktop
    } else {
        WindowFlags::Foreign
    }
}

/// The native mask that a list of flags folds to: the bitwise union of their
/// bits, in list order.
pub open spec fn spec_fold_bits(s: Seq<WindowFlags>) -> u32
    decreases s.len(),
{
    if s.len() == 0 {
        0u32
    } else {
        spec_fold_bits(s.drop_last()) | s.last().spec_bits()
    }
}

/// The flags that a native mask unfolds to, scanning the catalog from
/// position `k` on: each flag whose bits intersect the mask, in catalog
/// order. A composite flag is reported whenever any of its bits is present,
/// as the native scan does.
pub open spec fn spec_unfold_bits_from(bits: u32, k: int) -> Seq<WindowFlags>
    decreases WINDOW_FLAG_COUNT - k,
{
    if k < 0 || k >= WINDOW_FLAG_COUNT {
        Seq::empty()
    } else {
        (if bits & spec_flag_catalog(k).spec_bits() != 0 {
            seq![spec_flag_catalog(k)]
        } else {
            Seq::empty()
        }) + spec_unfold_bits_from(bits, k + 1)
    }
}

/// The flags that a native mask unfolds to, over the whole catalog.
pub open spec fn spec_unfold_bits(bits: u32) -> Seq<WindowFlags> {
    spec_unfold_bits_from(bits, 0)
}

impl WindowFlags {
    /// Fold a list of flags into the native mask they stand for.
    pub fn fold_bits(flags: &Vec<WindowFlags>) -> (r: u32)
        ensures
            r == spec_fold_bits(flags@),
    {
        let mut acc: u32 = 0;
        let mut i: usize = 0;
        proof {
            assert(flags@.take(0) =~= Seq::<WindowFlags>::empty());
        }
        while i < flags.len()
            invariant
                i <= flags@.len(),
                acc == spec_fold_bits(flags@.take(i as int)),
            decreases flags@.len() - i,
        {
            acc = acc | flags[i].bits();
            i = i + 1;
            proof {
                assert(flags@.take(i as int).drop_last() =~= flags@.take(i as int - 1));
                assert(flags@.take(i as int).last() == flags@[i as int - 1]);
            }
        }
        proof {
            assert(flags@.take(flags@.len() as int) =~= flags@);
        }
        acc
    }

    /// Unfold a native mask into the catalog flags whose bits it carries, in
    /// catalog order.
    pub fn unfold_bits(bitflags: u32) -> (r: Vec<WindowFlags>)
        ensures
            r@ == spec_unfold_bits(bitflags),
    {
        let mut r: Vec<WindowFlags> = Vec::new();
        let mut i: usize = 0;
        proof {
            assert(r@ + spec_unfold_bits_from(bitflags, 0) =~= spec_unfold_bits(bitflags));
        }
        while i < WINDOW_FLAG_COUNT
            invariant
                i <= WINDOW_FLAG_COUNT,
                r@ + spec_unfold_bits_from(bitflags, i as int) == spec_unfold_bits(bitflags),
            decreases WINDOW_FLAG_COUNT - i,
        {
            let ghost prev = r@;
            let f = flag_catalog(i);
            if bitflags & f.bits() != 0 {
                r.push(f);
            }
            proof {
                assert(r@ + spec_unfold_bits_from(bitflags, i as int + 1) =~= prev
                    + spec_unfold_bits_from(bitflags, i as int));
            }
            i = i + 1;
        }
        proof {
            assert(r@ + spec_unfold_bits_from(bitflags, WINDOW_FLAG_COUNT as int) =~= r@);
        }
        r
    }
}

/// The fullscreen-at-desktop-resolution composite is the fullscreen bit plus
/// its own marker bit, so it contains the fullscreen flag.
pub proof fn lemma_fullscreen_desktop_composite()
    ensures
        SDL_WINDOW_FULLSCREEN_DESKTOP == SDL_WINDOW_FULLSCREEN | 0x1000u32,
        SDL_WINDOW_FULLSCREEN_DESKTOP & SDL_WINDOW_FULLSCREEN == SDL_WINDOW_FULLSCREEN,
{
    assert(SDL_WINDOW_FULLSCREEN_DESKTOP & SDL_WINDOW_FULLSCREEN == SDL_WINDOW_FULLSCREEN)
        by (bit_vector);
}

/// The sub-kind of a window event, carried in the window payload's event
/// byte.
#[derive(Clone, Copy, Debug, PartialEq, Eq, Structural)]
pub enum SDL_WindowEventID {
    /// Never used.
    SDL_WINDOWEVENT_NONE,
    /// Window has been shown.
    SDL_WINDOWEVENT_SHOWN,
    /// Window has been hidden.
    SDL_WINDOWEVENT_HIDDEN,
    /// Window has been exposed and should be redrawn.
    SDL_WINDOWEVENT_EXPOSED,
    /// Window has been moved to data1, data2.
    SDL_WINDOWEVENT_MOVED,
    /// Window has been resized to data1 by data2.
    SDL_WINDOWEVENT_RESIZED,
    /// The window size has changed, through the API, the system or the user.
    SDL_WINDOWEVENT_SIZE_CHANGED,
    /// Window has been minimised.
    SDL_WINDOWEVENT_MINIMIZED,
    /// Window has been maximised.
    SDL_WINDOWEVENT_MAXIMIZED,
    /// Window has been restored to normal size and position.
    SDL_WINDOWEVENT_RESTORED,
    /// Window has gained mouse focus.
    SDL_WINDOWEVENT_ENTER,
    /// Window has lost mouse focus.
    SDL_WINDOWEVENT_LEAVE,
    /// Window has gained keyboard focus.
    SDL_WINDOWEVENT_FOCUS_GAINED,
    /// Window has lost keyboard focus.
    SDL_WINDOWEVENT_FOCUS_LOST,
    /// The window manager requests that the window be closed.
    SDL_WINDOWEVENT_CLOSE,
}

/// The sub-kind a window payload's event byte encodes, if any: the sub-kinds
/// are numbered consecutively from zero in declaration order.
pub open spec fn spec_window_event_id(b: u8) -> Option<SDL_WindowEventID> {
    if b == 0 {
        Some(SDL_WindowEventID::SDL_WINDOWEVENT_NONE)
    } else if b == 1 {
        Some(SDL_WindowEventID::SDL_WINDOWEVENT_SHOWN)
    } else if b == 2 {
        Some(SDL_WindowEventID::SDL_WINDOWEVENT_HIDDEN)
    } else if b == 3 {
        Some(SDL_WindowEventID::SDL_WINDOWEVENT_EXPOSED)
    } else if b == 4 {
        Some(SDL_WindowEventID::SDL_WINDOWEVENT_MOVED)
    } else if b == 5 {
        Some(SDL_WindowEventID::SDL_WINDOWEVENT_RESIZED)
    } else if b == 6 {
        Some(SDL_WindowEventID::SDL_WINDOWEVENT_SIZE_CHANGED)
    } else if b == 7 {
        Some(SDL_WindowEventID::SDL_WINDOWEVENT_MINIMIZED)
    } else if b == 8 {
        Some(SDL_WindowEventID::SDL_WINDOWEVENT_MAXIMIZED)
    } else if b == 9 {
        Some(SDL_WindowEventID::SDL_WINDOWEVENT_RESTORED)
    } else if b == 10 {
        Some(SDL_WindowEventID::SDL_WINDOWEVENT_ENTER)
    } else if b == 11 {
        Some(SDL_WindowEventID::SDL_WINDOWEVENT_LEAVE)
    } else if b == 12 {
        Some(SDL_WindowEventID::SDL_WINDOWEVENT_FOCUS_GAINED)
    } else if b == 13 {
        Some(SDL_WindowEventID::SDL_WINDOWEVENT_FOCUS_LOST)
    } else if b == 14 {
        Some(SDL_WindowEventID::SDL_WINDOWEVENT_CLOSE)
    } else {
        None
    }
}

impl SDL_WindowEventID {
    /// Decode a window payload's event byte: a sub-kind for the fifteen
    /// defined values, nothing for a byte a newer native generation may send.
    pub fn from_byte(b: u8) -> (r: Option<SDL_WindowEventID>)
        ensures
            r == spec_window_event_id(b),
            r is Some <==> b < 15,
    {
        if b == 0 {
            Some(SDL_WindowEventID::SDL_WINDOWEVENT_NONE)
        } else if b == 1 {
            Some(SDL_WindowEventID::SDL_WINDOWEVENT_SHOWN)
        } else if b == 2 {
            Some(SDL_WindowEventID::SDL_WINDOWEVENT_HIDDEN)
        } else if b == 3 {
            Some(SDL_WindowEventID::SDL_WINDOWEVENT_EXPOSED)
        } else if b == 4 {
            Some(SDL_WindowEventID::SDL_WINDOWEVENT_MOVED)
        } else if b == 5 {
            Some(SDL_WindowEventID::SDL_WINDOWEVENT_RESIZED)
        } else if b == 6 {
            Some(SDL_WindowEventID::SDL_WINDOWEVENT_SIZE_CHANGED)
        } else if b == 7 {
            Some(SDL_WindowEventID::SDL_WINDOWEVENT_MINIMIZED)
        } else if b == 8 {
            Some(SDL_WindowEventID::SDL_WINDOWEVENT_MAXIMIZED)
        } else if b == 9 {
            Some(SDL_WindowEventID::SDL_WINDOWEVENT_RESTORED)
        } else if b == 10 {
            Some(SDL_WindowEventID::SDL_WINDOWEVENT_ENTER)
        } else if b == 11 {
            Some(SDL_WindowEventID::SDL_WINDOWEVENT_LEAVE)
        } else if b == 12 {
            Some(SDL_WindowEventID::SDL_WINDOWEVENT_FOCUS_GAINED)
        } else if b == 13 {
            Some(SDL_WindowEventID::SDL_WINDOWEVENT_FOCUS_LOST)
        } else if b == 14 {
            Some(SDL_WindowEventID::SDL_WINDOWEVENT_CLOSE)
        } else {
            None
        }
    }
}

/// One mode a display can run in. The driver data field carries the raw
/// address the native library put there; only the unverified boundary may
/// read through it.
#[derive(Clone, Copy, Debug, PartialEq, Eq, Structural)]
pub struct SDL_DisplayMode {
    /// The pixel format.
    pub format: u32,
    pub w: i32,
    pub h: i32,
    /// The refresh rate, or zero for unspecified.
    pub refresh_rate: i32,
    pub driverdata: usize,
}

/// A display mode, as the binding's own value type.
#[derive(Clone, Copy, Debug, PartialEq, Eq, Structural)]
pub struct DisplayMode {
    pub format: u32,
    pub w: i32,
    pub h: i32,
    pub refresh_rate: i32,
    pub driverdata: usize,
}

impl DisplayMode {
    /// A display mode from its native form.
    pub fn wrap(mode: &SDL_DisplayMode) -> (r: DisplayMode)
        ensures
            r.format == mode.format,
            r.w == mode.w,
            r.h == mode.h,
            r.refresh_rate == mode.refresh_rate,
            r.driverdata == mode.driverdata,
    {
        DisplayMode {
            format: mode.format,
            w: mode.w,
            h: mode.h,
            refresh_rate: mode.refresh_rate,
            driverdata: mode.driverdata,
        }
    }

    /// The native form of this display mode.
    pub fn unwrap(&self) -> (r: SDL_DisplayMode)
        ensures
            r.format == self.format,
            r.w == self.w,
            r.h == self.h,
            r.refresh_rate == self.refresh_rate,
            r.driverdata == self.driverdata,
    {
        SDL_DisplayMode {
            format: self.format,
            w: self.w,
            h: self.h,
            refresh_rate: self.refresh_rate,
            driverdata: self.driverdata,
        }
    }
}

} // verus!
