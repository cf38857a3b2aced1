//! Points and rectangles, with the two predicates the native headers define
//! inline rather than in the library itself.

use vstd::prelude::*;

use crate::SDL_bool;

verus! {

#[derive(Clone, Copy, Debug, PartialEq, Eq, Structural)]
pub struct SDL_Point {
    pub x: i32,
    pub y: i32,
}

#[derive(Clone, Copy, Debug, PartialEq, Eq, Structural)]
pub struct SDL_Rect {
    pub x: i32,
    pub y: i32,
    pub w: i32,
    pub h: i32,
}

/// A rectangle is empty when it has no positive extent.
pub open spec fn spec_rect_empty(r: SDL_Rect) -> bool {
    r.w <= 0 || r.h <= 0
}

/// True exactly for rectangles without positive extent.
pub fn SDL_RectEmpty(r: &SDL_Rect) -> (b: SDL_bool)
    ensures
        (b == SDL_bool::SDL_TRUE) <==> spec_rect_empty(*r),
{
    if (r.w <= 0) || (r.h <= 0) {
        SDL_bool::SDL_TRUE
    } else {
        SDL_bool::SDL_FALSE
    }
}

/// True exactly when the two rectangles agree in position and extent.
pub fn SDL_RectEquals(a: &SDL_Rect, b: &SDL_Rect) -> (r: SDL_bool)
    ensures
        (r == SDL_bool::SDL_TRUE) <==> *a == *b,
{
    if *a == *b {
        SDL_bool::SDL_TRUE
    } else {
        SDL_bool::SDL_FALSE
    }
}

/// A point, as the binding's own value type.
#[derive(Clone, Copy, Debug, PartialEq, Eq, Structural)]
pub struct Point {
    pub x: i32,
    pub y: i32,
}

/// A rectangle, as the binding's own value type.
#[derive(Clone, Copy, Debug, PartialEq, Eq, Structural)]
pub struct Rect {
    pub x: i32,
    pub y: i32,
    pub w: i32,
    pub h: i32,
}

impl Point {
    /// The native form of this point.
    pub fn as_sdl_point(&self) -> (r: SDL_Point)
        ensures
            r.x == self.x,
            r.y == self.y,
    {
        SDL_Point { x: self.x, y: self.y }
    }
}

impl Rect {
    /// The native form of this rectangle.
    pub fn as_sdl_rect(&self) -> (r: SDL_Rect)
        ensures
            r.x == self.x,
            r.y == self.y,
            r.w == self.w,
            r.h == self.h,
    {
        SDL_Rect { x: self.x, y: self.y, w: self.w, h: self.h }
    }

    /// A rectangle from its native form.
    pub fn wrap(r: &SDL_Rect) -> (p: Rect)
        ensures
            p.x == r.x,
            p.y == r.y,
            p.w == r.w,
            p.h == r.h,
    {
        Rect { x: r.x, y: r.y, w: r.w, h: r.h }
    }

    /// The all-zero rectangle.
    pub fn empty() -> (r: Rect)
        ensures
            r.x == 0,
            r.y == 0,
            r.w == 0,
            r.h == 0,
    {
        Rect { x: 0, y: 0, w: 0, h: 0 }
    }

    /// True exactly when this rectangle has no positive extent.
    pub fn is_empty(&self) -> (r: bool)
        ensures
            r == (self.w <= 0 || self.h <= 0),
    {
        SDL_RectEmpty(&self.as_sdl_rect()).to_bool()
    }
}

} // verus!
