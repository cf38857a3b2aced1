//! The surface header: the fields of the native surface struct that the
//! binding exposes read-only, with the pointer-valued ones carried as raw
//! addresses.

use vstd::prelude::*;

use crate::rect::SDL_Rect;

verus! {

/// A collection of pixels. The pixel and lock-data fields carry raw native
/// addresses; only the unverified boundary may read through them. The fields
/// the native library manages are private and reachable through the getters
/// alone.
#[derive(Clone, Copy, Debug)]
pub struct SDL_Surface {
    flags: u32,
    h: i32,
    w: i32,
    pitch: i32,
    /// The raw address of the pixel data.
    pub pixels: usize,
    /// An application-owned word.
    pub userdata: usize,
    locked: i32,
    lock_data: usize,
    clip_rect: SDL_Rect,
}

impl SDL_Surface {
    pub closed spec fn spec_flags(&self) -> u32 {
        self.flags
    }

    pub closed spec fn spec_h(&self) -> i32 {
        self.h
    }

    pub closed spec fn spec_w(&self) -> i32 {
        self.w
    }

    pub closed spec fn spec_pitch(&self) -> i32 {
        self.pitch
    }

    pub closed spec fn spec_locked(&self) -> i32 {
        self.locked
    }

    pub closed spec fn spec_lock_data(&self) -> usize {
        self.lock_data
    }

    pub closed spec fn spec_clip_rect(&self) -> SDL_Rect {
        self.clip_rect
    }

    pub closed spec fn spec_pixels(&self) -> usize {
        self.pixels
    }

    pub closed spec fn spec_userdata(&self) -> usize {
        self.userdata
    }

    /// Assemble a surface header from its parts.
    pub fn new(
        flags: u32,
        w: i32,
        h: i32,
        pitch: i32,
        pixels: usize,
        userdata: usize,
        locked: i32,
        lock_data: usize,
        clip_rect: SDL_Rect,
    ) -> (r: SDL_Surface)
        ensures
            r.spec_flags() == flags,
            r.spec_w() == w,
            r.spec_h() == h,
            r.spec_pitch() == pitch,
            r.spec_pixels() == pixels,
            r.spec_userdata() == userdata,
            r.spec_locked() == locked,
            r.spec_lock_data() == lock_data,
            r.spec_clip_rect() == clip_rect,
    {
        SDL_Surface { flags, h, w, pitch, pixels, userdata, locked, lock_data, clip_rect }
    }

    pub fn get_flags(&self) -> (r: u32)
        ensures
            r == self.spec_flags(),
    {
        self.flags
    }

    pub fn get_h(&self) -> (r: i32)
        ensures
            r == self.spec_h(),
    {
        self.h
    }

    pub fn get_w(&self) -> (r: i32)
        ensures
            r == self.spec_w(),
    {
        self.w
    }

    pub fn get_pitch(&self) -> (r: i32)
        ensures
            r == self.spec_pitch(),
    {
        self.pitch
    }

    pub fn get_locked(&self) -> (r: i32)
        ensures
            r == self.spec_locked(),
    {
        self.locked
    }

    pub fn get_lock_data(&self) -> (r: usize)
        ensures
            r == self.spec_lock_data(),
    {
        self.lock_data
    }

    pub fn get_clip_rect(&self) -> (r: SDL_Rect)
        ensures
            r == self.spec_clip_rect(),
    {
        self.clip_rect
    }
}

} // verus!
