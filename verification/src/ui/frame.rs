use vstd::prelude::*;

use crate::ui::geometry::Rect;

verus! {

/// Everything one frame draws: the rectangles, in drawing order, and the window size.
pub struct Frame<T> {
    pub rec_vec: Vec<Rect<T>>,
    pub width: u32,
    pub height: u32,
}

impl<T> Frame<T> {
    /// Builds a frame from its rectangles and the `(width, height)` of the window.
    pub fn new(rec_vec: Vec<Rect<T>>, size: (u32, u32)) -> (f: Frame<T>)
        ensures
            f.rec_vec@ == rec_vec@,
            f.width == size.0,
            f.height == size.1,
    {
        let (width, height) = size;
        Frame { rec_vec, width, height }
    }
}

} // verus!
