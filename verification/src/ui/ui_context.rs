use std::collections::HashMap;

use vstd::prelude::*;
use vstd::multiset::Multiset;
use vstd::std_specs::iter::IteratorSpec;

use crate::ui::colors::Color;
use crate::ui::frame::Frame;
use crate::ui::geometry::Rect;

verus! {

broadcast use vstd::std_specs::hash::group_hash_axioms;

/// The identifier that `new_rec` gives to the next rectangle: the number of
/// rectangles already held, truncated to 32 bits.
pub open spec fn next_id<T>(m: Map<u32, Rect<T>>) -> u32 {
    m.len() as u32
}

/// The elements after a new rectangle was added under `next_id`.
pub open spec fn with_new_rect<T>(m: Map<u32, Rect<T>>, r: Rect<T>) -> Map<u32, Rect<T>> {
    m.insert(next_id(m), r)
}

/// The elements after the rectangle `id` was moved to `(x, y)`; its size and colour stay.
pub open spec fn with_position<T>(m: Map<u32, Rect<T>>, id: u32, x: T, y: T) -> Map<
    u32,
    Rect<T>,
> {
    m.insert(id, Rect { x, y, w: m[id].w, h: m[id].h, color: m[id].color })
}

/// The elements after the rectangle `id` was given the colour `c`; its geometry stays.
pub open spec fn with_color<T>(m: Map<u32, Rect<T>>, id: u32, c: Color) -> Map<u32, Rect<T>> {
    m.insert(id, Rect { x: m[id].x, y: m[id].y, w: m[id].w, h: m[id].h, color: c })
}

/// The identifiers in use are exactly `0, 1, ..., len - 1`.
pub open spec fn ids_dense<T>(m: Map<u32, Rect<T>>) -> bool {
    &&& m.dom().finite()
    &&& m.len() <= 0x1_0000_0000
    &&& forall|k: u32| #[trigger] m.contains_key(k) <==> (k as int) < m.len()
}

/// The rectangles of `m` as a multiset: each rectangle counted once per identifier
/// that holds it.
pub open spec fn values_multiset<T>(m: Map<u32, Rect<T>>) -> Multiset<Rect<T>>
    decreases m.dom().len(),
    when m.dom().finite()
{
    if m.dom().len() == 0 {
        Multiset::empty()
    } else {
        let k = m.dom().choose();
        values_multiset(m.remove(k)).insert(m[k])
    }
}

/// `s` lists every rectangle of `m` exactly once, in some order: `keys[i]` is the
/// identifier of `s[i]`, and `keys` runs through each identifier of `m` once.
pub open spec fn lists_each_once<T>(s: Seq<Rect<T>>, m: Map<u32, Rect<T>>, keys: Seq<u32>) -> bool {
    &&& m.dom().finite()
    &&& keys.len() == s.len()
    &&& s.len() == m.len()
    &&& keys.no_duplicates()
    &&& forall|i: int| 0 <= i < keys.len() ==> #[trigger] m.contains_key(keys[i]) && s[i] == m[keys[i]]
    &&& forall|k: u32| #[trigger] m.contains_key(k) ==> keys.contains(k)
}

/// The user interface: the rectangles on screen, each under a numeric identifier.
pub struct UiContext<T> {
    pub elements: HashMap<u32, Rect<T>>,
}

impl<T: Copy> UiContext<T> {
    /// An interface with no rectangles.
    pub fn new() -> (ui: UiContext<T>)
        ensures
            ui.elements@ == Map::<u32, Rect<T>>::empty(),
            ids_dense(ui.elements@),
    {
        let elements: HashMap<u32, Rect<T>> = HashMap::new();
        UiContext { elements: elements }
    }

    /// The frame to draw: every rectangle once, in the order in which the map is
    /// walked, and the window size.
    pub fn build_frame(&mut self, window_size: (u32, u32)) -> (frame: Frame<T>)
        ensures
            final(self).elements@ == old(self).elements@,
            frame.width == window_size.0,
            frame.height == window_size.1,
            exists|keys: Seq<u32>| lists_each_once(frame.rec_vec@, old(self).elements@, keys),
            frame.rec_vec@.to_multiset() == values_multiset(old(self).elements@),
    {
        let mut draw_list: Vec<Rect<T>> = Vec::new();
        for entry in it: self.elements.iter()
            invariant
                draw_list@.len() == it.index(),
                forall|i: int| 0 <= i < it.index() ==> #[trigger] draw_list@[i] == *it.seq()[i].1,
        {
            let (_, rect) = entry;
            draw_list.push(*rect);
        }
        let ghost m = self.elements@;
        let ghost v = vstd::std_specs::hash::spec_hash_map_iter(&self.elements).remaining();
        let ghost keys = v.map_values(|p: (&u32, &Rect<T>)| *p.0);
        proof {
            assert(v.len() == m.dom().len());
            assert forall|i: int, j: int| 0 <= i < keys.len() && 0 <= j < keys.len() && i != j
                implies keys[i] != keys[j] by {
                if keys[i] == keys[j] {
                    assert(m.contains_key(*v[i].0));
                    assert(m.contains_key(*v[j].0));
                    assert(v[i] == v[j]);
                }
            }
            assert forall|k: u32| #[trigger] m.contains_key(k) implies keys.contains(k) by {
                assert(v.contains((&k, &m[k])));
                let i = choose|i: int| 0 <= i < v.len() && v[i] == (&k, &m[k]);
                assert(keys[i] == k);
            }
            assert forall|i: int| 0 <= i < keys.len() implies #[trigger] m.contains_key(keys[i])
                && draw_list@[i] == m[keys[i]] by {
                assert(m.contains_key(*v[i].0));
            }
            assert(lists_each_once(draw_list@, m, keys));
            lemma_listing_is_values_multiset(draw_list@, m, keys);
        }
        Frame::new(draw_list, window_size)
    }

    /// Adds a rectangle and returns its identifier: the number of rectangles held
    /// before, truncated to 32 bits (a rectangle already under that identifier is replaced).
    pub fn new_rec(&mut self, x: T, y: T, w: T, h: T, color: Color) -> (id: u32)
        ensures
            id == next_id(old(self).elements@),
            final(self).elements@ == with_new_rect(old(self).elements@, Rect { x, y, w, h, color }),
            ids_dense(old(self).elements@) ==> ids_dense(final(self).elements@),
            ids_dense(old(self).elements@) && old(self).elements@.len() < 0x1_0000_0000 ==> {
                &&& id as int == old(self).elements@.len()
                &&& !old(self).elements@.contains_key(id)
                &&& final(self).elements@.len() == old(self).elements@.len() + 1
            },
    {
        proof {
            let m = self.elements@;
            let r = Rect { x, y, w, h, color };
            if ids_dense(m) {
                if m.len() < 0x1_0000_0000 {
                    lemma_new_rect_fresh(m, r);
                } else {
                    lemma_new_rect_when_full(m, r);
                }
            }
        }
        let new_rec = Rect::new(x, y, w, h, color);
        let id = self.elements.len() as u32;
        self.elements.insert(id, new_rec);
        id
    }

    /// Moves the rectangle `object_id` so that its top-left corner is `(x, y)`.
    pub fn set_object_position(&mut self, object_id: u32, x: T, y: T)
        requires
            old(self).elements@.contains_key(object_id),
        ensures
            final(self).elements@ == with_position(old(self).elements@, object_id, x, y),
            ids_dense(old(self).elements@) ==> ids_dense(final(self).elements@),
    {
        proof {
            lemma_move_keeps_size_and_color(self.elements@, object_id, x, y);
        }
        let object = *self.elements.get(&object_id).unwrap();
        self.elements.insert(
            object_id,
            Rect { x: x, y: y, w: object.w, h: object.h, color: object.color },
        );
    }

    /// The corner and size `(x, y, w, h)` of the rectangle `object_id`.
    pub fn _get_object_position(&mut self, object_id: u32) -> (pos: (T, T, T, T))
        requires
            old(self).elements@.contains_key(object_id),
        ensures
            final(self).elements@ == old(self).elements@,
            pos == (
                old(self).elements@[object_id].x,
                old(self).elements@[object_id].y,
                old(self).elements@[object_id].w,
                old(self).elements@[object_id].h,
            ),
    {
        let object = self.elements.get(&object_id).unwrap();
        (object.x, object.y, object.w, object.h)
    }

    /// Gives the rectangle `object_id` the colour `color`.
    pub fn set_object_color(&mut self, object_id: u32, color: Color)
        requires
            old(self).elements@.contains_key(object_id),
        ensures
            final(self).elements@ == with_color(old(self).elements@, object_id, color),
            ids_dense(old(self).elements@) ==> ids_dense(final(self).elements@),
    {
        proof {
            lemma_color_read_after_write(self.elements@, object_id, color);
        }
        let object = *self.elements.get(&object_id).unwrap();
        self.elements.insert(
            object_id,
            Rect { x: object.x, y: object.y, w: object.w, h: object.h, color: color },
        );
    }

    /// The colour of the rectangle `object_id`.
    pub fn get_object_color(&mut self, object_id: u32) -> (color: Color)
        requires
            old(self).elements@.contains_key(object_id),
        ensures
            final(self).elements@ == old(self).elements@,
            color == old(self).elements@[object_id].color,
    {
        let object = self.elements.get(&object_id).unwrap();
        object.color
    }
}

/// While fewer than 2^32 rectangles are held and their identifiers are dense, `new_rec`
/// hands out an identifier that is not in use, equal to the count before the call; the
/// new rectangle is stored under it, the count grows by one, every other rectangle stays
/// as it was, and the identifiers stay dense.
pub proof fn lemma_new_rect_fresh<T>(m: Map<u32, Rect<T>>, r: Rect<T>)
    requires
        ids_dense(m),
        m.len() < 0x1_0000_0000,
    ensures
        next_id(m) as int == m.len(),
        !m.contains_key(next_id(m)),
        with_new_rect(m, r).len() == m.len() + 1,
        with_new_rect(m, r)[next_id(m)] == r,
        forall|k: u32| #[trigger] m.contains_key(k) ==> with_new_rect(m, r).contains_key(k)
            && with_new_rect(m, r)[k] == m[k],
        ids_dense(with_new_rect(m, r)),
{
    broadcast use vstd::std_specs::hash::group_hash_axioms;
    let id = next_id(m);
    assert(id as int == m.len());
    assert(!m.contains_key(id));
    assert(with_new_rect(m, r).dom() =~= m.dom().insert(id));
}

/// Once all 2^32 identifiers are in use, `new_rec` hands out identifier 0 again: the
/// rectangle held under 0 is replaced, the count stays, the identifiers stay dense.
pub proof fn lemma_new_rect_when_full<T>(m: Map<u32, Rect<T>>, r: Rect<T>)
    requires
        ids_dense(m),
        m.len() == 0x1_0000_0000,
    ensures
        next_id(m) == 0,
        m.contains_key(0),
        with_new_rect(m, r).len() == m.len(),
        with_new_rect(m, r)[0] == r,
        ids_dense(with_new_rect(m, r)),
{
    assert((0x1_0000_0000nat as u32) == 0) by (bit_vector);
    assert(m.contains_key(0));
    assert(with_new_rect(m, r).dom() =~= m.dom());
}

/// Reading a colour gives back what `set_object_color` wrote; the rectangle keeps its
/// corner and size, every other rectangle and the set of identifiers stay as they were.
pub proof fn lemma_color_read_after_write<T>(m: Map<u32, Rect<T>>, id: u32, c: Color)
    requires
        m.contains_key(id),
    ensures
        with_color(m, id, c)[id].color == c,
        with_color(m, id, c)[id].x == m[id].x,
        with_color(m, id, c)[id].y == m[id].y,
        with_color(m, id, c)[id].w == m[id].w,
        with_color(m, id, c)[id].h == m[id].h,
        with_color(m, id, c).dom() == m.dom(),
        forall|k: u32| k != id && #[trigger] m.contains_key(k) ==> with_color(m, id, c)[k] == m[k],
        ids_dense(m) ==> ids_dense(with_color(m, id, c)),
{
    assert(with_color(m, id, c).dom() =~= m.dom());
}

/// Moving a rectangle puts its corner where asked and keeps its size and colour; every
/// other rectangle and the set of identifiers stay as they were.
pub proof fn lemma_move_keeps_size_and_color<T>(m: Map<u32, Rect<T>>, id: u32, x: T, y: T)
    requires
        m.contains_key(id),
    ensures
        with_position(m, id, x, y)[id].x == x,
        with_position(m, id, x, y)[id].y == y,
        with_position(m, id, x, y)[id].w == m[id].w,
        with_position(m, id, x, y)[id].h == m[id].h,
        with_position(m, id, x, y)[id].color == m[id].color,
        with_position(m, id, x, y).dom() == m.dom(),
        forall|k: u32| k != id && #[trigger] m.contains_key(k) ==> with_position(m, id, x, y)[k]
            == m[k],
        ids_dense(m) ==> ids_dense(with_position(m, id, x, y)),
{
    assert(with_position(m, id, x, y).dom() =~= m.dom());
}

/// Taking the rectangles out of a map one identifier at a time gives the same multiset
/// whichever identifier is taken first.
pub proof fn lemma_values_multiset_remove<T>(m: Map<u32, Rect<T>>, x: u32)
    requires
        m.dom().finite(),
        m.contains_key(x),
    ensures
        values_multiset(m) == values_multiset(m.remove(x)).insert(m[x]),
    decreases m.dom().len(),
{
    let k = m.dom().choose();
    if k != x {
        let mk = m.remove(k);
        let mx = m.remove(x);
        assert(mk.dom() =~= m.dom().remove(k));
        assert(mx.dom() =~= m.dom().remove(x));
        lemma_values_multiset_remove(mk, x);
        lemma_values_multiset_remove(mx, k);
        assert(mk.remove(x) =~= mx.remove(k));
        assert(mk[x] == m[x]);
        assert(mx[k] == m[k]);
        let base = values_multiset(mk.remove(x));
        assert(base.insert(m[x]).insert(m[k]) =~= base.insert(m[k]).insert(m[x]));
    }
}

/// A sequence that lists every rectangle of a map exactly once holds, as a multiset,
/// exactly the map's rectangles; so any two such listings of one map agree as multisets.
pub proof fn lemma_listing_is_values_multiset<T>(s: Seq<Rect<T>>, m: Map<u32, Rect<T>>, keys: Seq<u32>)
    requires
        lists_each_once(s, m, keys),
    ensures
        s.to_multiset() == values_multiset(m),
    decreases s.len(),
{
    broadcast use vstd::seq_lib::group_to_multiset_ensures;
    if s.len() == 0 {
        assert(m.dom() =~= Set::empty());
        assert(s.to_multiset() =~= Multiset::empty());
    } else {
        let n = s.len() - 1;
        let x = keys[n];
        let s2 = s.drop_last();
        let keys2 = keys.drop_last();
        let m2 = m.remove(x);
        assert(m.contains_key(x));
        assert(m2.dom() =~= m.dom().remove(x));
        assert forall|i: int| 0 <= i < keys2.len() implies #[trigger] m2.contains_key(keys2[i])
            && s2[i] == m2[keys2[i]] by {
            assert(keys[i] != keys[n]);
            assert(m.contains_key(keys[i]));
        }
        assert forall|k: u32| #[trigger] m2.contains_key(k) implies keys2.contains(k) by {
            assert(keys.contains(k));
            let i = choose|i: int| 0 <= i < keys.len() && keys[i] == k;
            assert(i != n);
            assert(keys2[i] == k);
        }
        assert(keys2.no_duplicates());
        lemma_listing_is_values_multiset(s2, m2, keys2);
        lemma_values_multiset_remove(m, x);
        assert(s =~= s2.push(s[n]));
    }
}

/// A change a `UiContext` method makes to the rectangles: `new_rec`,
/// `set_object_position` or `set_object_color` (the other methods change nothing).
pub enum UiEdit<T> {
    NewRect(Rect<T>),
    Move(u32, T, T),
    Recolor(u32, Color),
}

/// The rectangles after one edit. A move or recolour of an identifier not in use stands
/// for no call (the methods require the identifier) and changes nothing.
pub open spec fn apply_edit<T>(m: Map<u32, Rect<T>>, e: UiEdit<T>) -> Map<u32, Rect<T>> {
    match e {
        UiEdit::NewRect(r) => with_new_rect(m, r),
        UiEdit::Move(id, x, y) => if m.contains_key(id) {
            with_position(m, id, x, y)
        } else {
            m
        },
        UiEdit::Recolor(id, c) => if m.contains_key(id) {
            with_color(m, id, c)
        } else {
            m
        },
    }
}

/// The rectangles after the edits `es`, first to last.
pub open spec fn apply_edits<T>(m: Map<u32, Rect<T>>, es: Seq<UiEdit<T>>) -> Map<u32, Rect<T>>
    decreases es.len(),
{
    if es.len() == 0 {
        m
    } else {
        apply_edit(apply_edits(m, es.drop_last()), es.last())
    }
}

/// How many of the edits add a rectangle.
pub open spec fn count_new_rects<T>(es: Seq<UiEdit<T>>) -> nat
    decreases es.len(),
{
    if es.len() == 0 {
        0
    } else {
        count_new_rects(es.drop_last()) + if es.last() is NewRect {
            1nat
        } else {
            0nat
        }
    }
}

/// The identifiers that `new_rec` hands out along the edits `es`, in order.
pub open spec fn issued_ids<T>(m: Map<u32, Rect<T>>, es: Seq<UiEdit<T>>) -> Seq<u32>
    decreases es.len(),
{
    if es.len() == 0 {
        Seq::empty()
    } else if es.last() is NewRect {
        issued_ids(m, es.drop_last()).push(next_id(apply_edits(m, es.drop_last())))
    } else {
        issued_ids(m, es.drop_last())
    }
}

/// Over any sequence of calls: identifiers stay dense; and as long as no more than 2^32
/// rectangles are ever added, the identifiers `new_rec` hands out are the counts
/// `m.len(), m.len() + 1, ...` in order, so they are pairwise distinct, none was in use
/// before, and the count grows by one per added rectangle. Starting from
/// `UiContext::new` (no rectangles), the identifiers are `0, 1, 2, ...`.
pub proof fn lemma_edits_keep_ids_dense_and_fresh<T>(m: Map<u32, Rect<T>>, es: Seq<UiEdit<T>>)
    requires
        ids_dense(m),
    ensures
        ids_dense(apply_edits(m, es)),
        m.len() + count_new_rects(es) <= 0x1_0000_0000 ==> {
            &&& apply_edits(m, es).len() == m.len() + count_new_rects(es)
            &&& issued_ids(m, es).len() == count_new_rects(es)
            &&& forall|i: int| 0 <= i < issued_ids(m, es).len() ==> #[trigger] issued_ids(m, es)[i] as int == m.len() + i
            &&& issued_ids(m, es).no_duplicates()
            &&& forall|i: int| 0 <= i < issued_ids(m, es).len() ==> !m.contains_key(#[trigger] issued_ids(m, es)[i])
        },
    decreases es.len(),
{
    if es.len() > 0 {
        let es0 = es.drop_last();
        lemma_edits_keep_ids_dense_and_fresh(m, es0);
        let p = apply_edits(m, es0);
        match es.last() {
            UiEdit::NewRect(r) => {
                if p.len() < 0x1_0000_0000 {
                    lemma_new_rect_fresh(p, r);
                } else {
                    lemma_new_rect_when_full(p, r);
                }
            },
            UiEdit::Move(id, x, y) => {
                if p.contains_key(id) {
                    lemma_move_keeps_size_and_color(p, id, x, y);
                }
            },
            UiEdit::Recolor(id, c) => {
                if p.contains_key(id) {
                    lemma_color_read_after_write(p, id, c);
                }
            },
        }
        if m.len() + count_new_rects(es) <= 0x1_0000_0000 {
            assert(count_new_rects(es0) <= count_new_rects(es));
            let ids = issued_ids(m, es);
            assert forall|i: int, j: int| 0 <= i < ids.len() && 0 <= j < ids.len() && i != j
                implies ids[i] != ids[j] by {
                assert(ids[i] as int == m.len() + i);
                assert(ids[j] as int == m.len() + j);
            }
            assert forall|i: int| 0 <= i < ids.len() implies !m.contains_key(#[trigger] ids[i]) by {
                assert(ids[i] as int == m.len() + i);
            }
        }
    }
}

} // verus!
