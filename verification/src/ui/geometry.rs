use vstd::prelude::*;

use crate::ui::colors::Color;

verus! {

/// A filled, axis-aligned rectangle: its top-left corner `(x, y)`, its width `w`
/// and height `h`, and its colour.
///
/// The coordinate type `T` is left to the caller (the application uses `f32`);
/// the library only stores and copies coordinates, it never does arithmetic on them.
#[derive(Clone, Copy, Debug)]
pub struct Rect<T> {
    pub x: T,
    pub y: T,
    pub w: T,
    pub h: T,
    pub color: Color,
}

impl<T> Rect<T> {
    /// Builds a rectangle from its corner, its size and its colour.
    pub fn new(x: T, y: T, w: T, h: T, color: Color) -> (r: Rect<T>)
        ensures
            r == (Rect { x, y, w, h, color }),
    {
        Rect { x, y, w, h, color }
    }
}

/// An axis-aligned image placement: top-left corner `(x, y)`, width `w`, height `h`.
#[derive(Clone, Copy, Debug)]
pub struct Image<T> {
    pub x: T,
    pub y: T,
    pub w: T,
    pub h: T,
}

} // verus!
