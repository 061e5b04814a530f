use vstd::prelude::*;

use crate::ui::colors::Color;
use crate::ui::geometry::Rect;
use crate::ui::ui_context::{next_id, with_color, with_new_rect, UiContext};

verus! {

/// A palette swatch: the rectangle `id` which, when clicked, gives the pointer `color`.
#[derive(Clone, Copy, Debug, PartialEq, Eq, Structural)]
pub struct Swatch {
    pub id: u32,
    pub color: Color,
}

/// What a click did.
#[derive(Clone, Copy, Debug, PartialEq, Eq, Structural)]
pub enum ClickOutcome {
    /// The click hit the swatch with this index; the pointer took its colour.
    Recolored(usize),
    /// The click hit no swatch; a rectangle in the pointer's colour was added under this
    /// identifier.
    Stamped(u32),
}

/// `i` is the first position at which `hits` is true.
pub open spec fn is_first_hit(hits: Seq<bool>, i: int) -> bool {
    &&& 0 <= i < hits.len()
    &&& hits[i]
    &&& forall|j: int| 0 <= j < i ==> !#[trigger] hits[j]
}

/// The paint program: a pointer rectangle that follows the cursor, and a palette of
/// swatches, tried in order.
pub struct Painter {
    pub pointer: u32,
    pub swatches: Vec<Swatch>,
}

impl Painter {
    /// Handles a click. `hits[i]` tells whether the click fell inside swatch `i`. The
    /// first swatch hit gives the pointer its colour; when none is hit, a rectangle with
    /// corner `(x, y)`, size `(w, h)` and the pointer's colour is added.
    pub fn click<T: Copy>(&self, ui: &mut UiContext<T>, hits: &[bool], x: T, y: T, w: T, h: T) -> (outcome: ClickOutcome)
        requires
            hits@.len() == self.swatches@.len(),
            old(ui).elements@.contains_key(self.pointer),
        ensures
            match outcome {
                ClickOutcome::Recolored(i) => {
                    &&& is_first_hit(hits@, i as int)
                    &&& final(ui).elements@ == with_color(
                        old(ui).elements@,
                        self.pointer,
                        self.swatches@[i as int].color,
                    )
                },
                ClickOutcome::Stamped(id) => {
                    &&& forall|j: int| 0 <= j < hits@.len() ==> !#[trigger] hits@[j]
                    &&& id == next_id(old(ui).elements@)
                    &&& final(ui).elements@ == with_new_rect(
                        old(ui).elements@,
                        Rect { x, y, w, h, color: old(ui).elements@[self.pointer].color },
                    )
                },
            },
    {
        let n = self.swatches.len();
        for i in 0..n
            invariant
                n == self.swatches@.len(),
                hits@.len() == n,
                forall|j: int| 0 <= j < i ==> !#[trigger] hits@[j],
                ui.elements@ == old(ui).elements@,
                old(ui).elements@.contains_key(self.pointer),
        {
            if hits[i] {
                ui.set_object_color(self.pointer, self.swatches[i].color);
                return ClickOutcome::Recolored(i);
            }
        }
        let current_color = ui.get_object_color(self.pointer);
        let id = ui.new_rec(x, y, w, h, current_color);
        ClickOutcome::Stamped(id)
    }
}

} // verus!
