use vstd::prelude::*;

verus! {

/// Number of vertices the vertex buffer holds when the renderer is created.
pub const INITIAL_VERTEX_CAPACITY: usize = 1024;

/// Number of indices the index buffer holds when the renderer is created.
pub const INITIAL_INDEX_CAPACITY: usize = 2048;

/// The six indices of the two triangles `(0, 1, 2)` and `(1, 3, 2)` of a quad whose
/// four vertices start at `offset` (top-left, top-right, bottom-left, bottom-right).
pub open spec fn quad_indices(offset: u16) -> Seq<u16> {
    seq![
        offset,
        (offset + 1) as u16,
        (offset + 2) as u16,
        (offset + 1) as u16,
        (offset + 3) as u16,
        (offset + 2) as u16,
    ]
}

/// The capacity a buffer of capacity `cap` ends up with when it is doubled until it
/// holds `len` items.
pub open spec fn grown_capacity(cap: nat, len: nat) -> nat
    decreases (if len > cap { len - cap } else { 0 }),
    when cap > 0
{
    if len <= cap {
        cap
    } else {
        grown_capacity(cap * 2, len)
    }
}

/// Doubling a positive capacity until it holds `len` items gives a capacity that holds
/// them, that is no smaller than the one it started from, and that is either that
/// capacity unchanged or less than twice `len`.
pub proof fn lemma_grown_capacity(cap: nat, len: nat)
    requires
        cap > 0,
    ensures
        grown_capacity(cap, len) >= len,
        grown_capacity(cap, len) >= cap,
        grown_capacity(cap, len) == cap || grown_capacity(cap, len) < 2 * len,
    decreases (if len > cap { len - cap } else { 0 }),
{
    if len > cap {
        lemma_grown_capacity(cap * 2, len);
    }
}

/// The CPU side of the interface renderer: the vertices and indices of the quads queued
/// for the current frame, the draw command of each quad (the bind group it is drawn
/// with and its range of indices), the capacities of the GPU buffers, and the number of
/// indices last uploaded.
///
/// The vertex type `V` and the bind-group type `G` are left to the caller; the library
/// only stores them.
pub struct UiRenderer<V, G> {
    vertices: Vec<V>,
    indices: Vec<u16>,
    vertex_buffer_capacity: usize,
    index_buffer_capacity: usize,
    draw_command_list: Vec<(G, [u16; 2])>,
    index_count: u32,
}

impl<V, G> UiRenderer<V, G> {
    /// The vertices queued for the current frame.
    pub closed spec fn vertex_seq(&self) -> Seq<V> {
        self.vertices@
    }

    /// The indices queued for the current frame.
    pub closed spec fn index_seq(&self) -> Seq<u16> {
        self.indices@
    }

    /// The draw commands queued for the current frame, in order.
    pub closed spec fn commands(&self) -> Seq<(G, [u16; 2])> {
        self.draw_command_list@
    }

    /// How many vertices the GPU vertex buffer holds.
    pub closed spec fn vertex_capacity(&self) -> usize {
        self.vertex_buffer_capacity
    }

    /// How many indices the GPU index buffer holds.
    pub closed spec fn index_capacity(&self) -> usize {
        self.index_buffer_capacity
    }

    /// How many indices were uploaded last.
    pub closed spec fn uploaded_index_count(&self) -> u32 {
        self.index_count
    }

    /// Vertex capacity, index capacity, queued vertices and queued indices.
    pub open spec fn sizes(&self) -> (nat, nat, nat, nat) {
        (
            self.vertex_capacity() as nat,
            self.index_capacity() as nat,
            self.vertex_seq().len(),
            self.index_seq().len(),
        )
    }

    /// The renderer's state is what its operations build: both capacities are positive,
    /// and the queue is a run of quads, quad `k` having the vertices `4k .. 4k + 4`, the
    /// indices `6k .. 6k + 6` (the two triangles of `quad_indices` over its first
    /// vertex), and the draw command over the index range `[6k, 6k + 6)`, every offset
    /// truncated to 16 bits.
    pub open spec fn well_formed(&self) -> bool {
        &&& self.vertex_capacity() > 0
        &&& self.index_capacity() > 0
        &&& self.vertex_seq().len() == 4 * self.commands().len()
        &&& self.index_seq().len() == 6 * self.commands().len()
        &&& forall|k: int|
            0 <= k < self.commands().len() ==> (#[trigger] self.commands()[k]).1[0] == ((6 * k)
                % 0x1_0000) as u16 && self.commands()[k].1[1] == ((6 * k + 6) % 0x1_0000) as u16
        &&& forall|k: int, j: int|
            0 <= k < self.commands().len() && 0 <= j < 6 ==> #[trigger] self.index_seq()[6 * k + j]
                == quad_indices(((4 * k) % 0x1_0000) as u16)[j]
    }

    /// A renderer with nothing queued, nothing uploaded, and buffers of 1024 vertices
    /// and 2048 indices.
    pub fn new() -> (r: Self)
        ensures
            r.well_formed(),
            r.vertex_seq() == Seq::<V>::empty(),
            r.index_seq() == Seq::<u16>::empty(),
            r.commands() == Seq::<(G, [u16; 2])>::empty(),
            r.vertex_capacity() == INITIAL_VERTEX_CAPACITY,
            r.index_capacity() == INITIAL_INDEX_CAPACITY,
            r.uploaded_index_count() == 0,
    {
        let vertex_buffer_capacity = INITIAL_VERTEX_CAPACITY;
        let index_buffer_capacity = INITIAL_INDEX_CAPACITY;
        UiRenderer {
            vertices: Vec::with_capacity(vertex_buffer_capacity),
            indices: Vec::with_capacity(index_buffer_capacity),
            vertex_buffer_capacity,
            index_buffer_capacity,
            draw_command_list: Vec::new(),
            index_count: 0,
        }
    }

    /// Queues a quad: its four vertices (top-left, top-right, bottom-left,
    /// bottom-right), its two triangles `(0, 1, 2)` and `(1, 3, 2)` over them, and a draw
    /// command that draws those six indices with `bind_group`. Offsets are the queue
    /// lengths truncated to 16 bits.
    pub fn push_quad(
        &mut self,
        top_left: V,
        top_right: V,
        bottom_left: V,
        bottom_right: V,
        bind_group: G,
    )
        requires
            old(self).well_formed(),
        ensures
            final(self).well_formed(),
            final(self).vertex_seq() == old(self).vertex_seq() + seq![
                top_left,
                top_right,
                bottom_left,
                bottom_right,
            ],
            final(self).index_seq() == old(self).index_seq() + quad_indices(
                old(self).vertex_seq().len() as u16,
            ),
            final(self).commands() == old(self).commands().push(
                (
                    bind_group,
                    [
                        old(self).index_seq().len() as u16,
                        (old(self).index_seq().len() + 6) as u16,
                    ],
                ),
            ),
            final(self).vertex_capacity() == old(self).vertex_capacity(),
            final(self).index_capacity() == old(self).index_capacity(),
            final(self).uploaded_index_count() == old(self).uploaded_index_count(),
            final(self).sizes() == sizes_after(old(self).sizes(), QueueStep::PushQuad),
            final(self).index_seq().len() == old(self).index_seq().len() + 6,
            final(self).index_seq()[old(self).index_seq().len() as int] as int == old(
                self,
            ).vertex_seq().len() % 0x1_0000,
            final(self).index_seq()[old(self).index_seq().len() + 1int] as int == old(
                self,
            ).vertex_seq().len() % 0x1_0000 + 1,
            final(self).index_seq()[old(self).index_seq().len() + 2int] as int == old(
                self,
            ).vertex_seq().len() % 0x1_0000 + 2,
            final(self).index_seq()[old(self).index_seq().len() + 3int] as int == old(
                self,
            ).vertex_seq().len() % 0x1_0000 + 1,
            final(self).index_seq()[old(self).index_seq().len() + 4int] as int == old(
                self,
            ).vertex_seq().len() % 0x1_0000 + 3,
            final(self).index_seq()[old(self).index_seq().len() + 5int] as int == old(
                self,
            ).vertex_seq().len() % 0x1_0000 + 2,
    {
        let ghost n = self.draw_command_list@.len();
        let len = self.vertices.len();
        let ilen = self.indices.len();
        assert(len % 4 == 0 ==> (len as u16) <= 65532) by (bit_vector);
        assert((len as u16) as usize == len % 65536) by (bit_vector);
        assert((len as u16) == ((len % 65536) as u16)) by (bit_vector);
        assert((ilen as u16) == ((ilen % 65536) as u16)) by (bit_vector);

        let vertex_offset = len as u16;
        let index_offset = self.indices.len() as u16;

        self.vertices.push(top_left);
        self.vertices.push(top_right);
        self.vertices.push(bottom_left);
        self.vertices.push(bottom_right);

        self.indices.push(vertex_offset);
        self.indices.push(vertex_offset + 1);
        self.indices.push(vertex_offset + 2);
        self.indices.push(vertex_offset + 1);
        self.indices.push(vertex_offset + 3);
        self.indices.push(vertex_offset + 2);

        let ilen_end = self.indices.len();
        assert((ilen_end as u16) == ((ilen_end % 65536) as u16)) by (bit_vector);
        let index_end = ilen_end as u16;
        self.draw_command_list.push((bind_group, [index_offset, index_end]));

        proof {
            assert(self.vertices@ =~= old(self).vertices@ + seq![
                top_left,
                top_right,
                bottom_left,
                bottom_right,
            ]);
            assert(self.indices@ =~= old(self).indices@ + quad_indices(vertex_offset));
            assert forall|k: int, j: int|
                0 <= k < self.commands().len() && 0 <= j < 6 implies #[trigger] self.index_seq()[6
                * k + j] == quad_indices(((4 * k) % 0x1_0000) as u16)[j] by {
                if k < n {
                    assert(self.index_seq()[6 * k + j] == old(self).index_seq()[6 * k + j]);
                } else {
                    assert(k == n);
                    assert(6 * k + j == old(self).index_seq().len() + j);
                }
            }
        }
    }

    /// Starts a frame: the queue is emptied and the uploaded index count is reset; the
    /// buffer capacities stay.
    pub fn begin_frame(&mut self)
        requires
            old(self).well_formed(),
        ensures
            final(self).well_formed(),
            final(self).vertex_seq() == Seq::<V>::empty(),
            final(self).index_seq() == Seq::<u16>::empty(),
            final(self).commands() == Seq::<(G, [u16; 2])>::empty(),
            final(self).uploaded_index_count() == 0,
            final(self).vertex_capacity() == old(self).vertex_capacity(),
            final(self).index_capacity() == old(self).index_capacity(),
            final(self).sizes() == sizes_after(old(self).sizes(), QueueStep::BeginFrame),
    {
        self.vertices.clear();
        self.indices.clear();
        self.index_count = 0;
        self.draw_command_list.clear();
    }

    /// Grows each buffer capacity that is too small for its queue by doubling it until
    /// the queue fits. Gives `None`, and changes nothing, when a doubling would overflow;
    /// otherwise says for each buffer whether it grew.
    fn ensure_capacity(&mut self) -> (grown: Option<(bool, bool)>)
        requires
            old(self).well_formed(),
        ensures
            final(self).vertices == old(self).vertices,
            final(self).indices == old(self).indices,
            final(self).draw_command_list == old(self).draw_command_list,
            final(self).index_count == old(self).index_count,
            capacity_outcome(
                grown,
                old(self).vertex_capacity() as nat,
                old(self).vertex_seq().len(),
                old(self).index_capacity() as nat,
                old(self).index_seq().len(),
                final(self).vertex_capacity(),
                final(self).index_capacity(),
            ),
    {
        let vertex_capacity = grow(self.vertex_buffer_capacity, self.vertices.len());
        let index_capacity = grow(self.index_buffer_capacity, self.indices.len());
        match (vertex_capacity, index_capacity) {
            (Some(vc), Some(ic)) => {
                let vertex_grown = self.vertices.len() > self.vertex_buffer_capacity;
                let index_grown = self.indices.len() > self.index_buffer_capacity;
                self.vertex_buffer_capacity = vc;
                self.index_buffer_capacity = ic;
                Some((vertex_grown, index_grown))
            },
            _ => None,
        }
    }

    /// Makes the buffers big enough for the queue (see `capacity_outcome`) and records
    /// the number of queued indices, truncated to 32 bits, as the count to draw. Gives
    /// `None`, and changes nothing, when growing a buffer would overflow.
    pub fn upload(&mut self) -> (grown: Option<(bool, bool)>)
        requires
            old(self).well_formed(),
        ensures
            final(self).well_formed(),
            final(self).vertex_seq() == old(self).vertex_seq(),
            final(self).index_seq() == old(self).index_seq(),
            final(self).commands() == old(self).commands(),
            capacity_outcome(
                grown,
                old(self).vertex_capacity() as nat,
                old(self).vertex_seq().len(),
                old(self).index_capacity() as nat,
                old(self).index_seq().len(),
                final(self).vertex_capacity(),
                final(self).index_capacity(),
            ),
            grown is Some ==> final(self).uploaded_index_count() == old(self).index_seq().len() as u32,
            final(self).vertex_capacity() >= old(self).vertex_capacity(),
            final(self).index_capacity() >= old(self).index_capacity(),
            grown is Some ==> final(self).vertex_seq().len() <= final(self).vertex_capacity()
                && final(self).index_seq().len() <= final(self).index_capacity(),
            final(self).sizes() == sizes_after(old(self).sizes(), QueueStep::Upload),
            grown is None ==> final(self).uploaded_index_count() == old(self).uploaded_index_count(),
    {
        let grown = self.ensure_capacity();
        proof {
            lemma_grown_capacity(old(self).vertex_capacity() as nat, old(self).vertex_seq().len());
            lemma_grown_capacity(old(self).index_capacity() as nat, old(self).index_seq().len());
        }
        if grown.is_some() {
            self.index_count = self.indices.len() as u32;
        }
        grown
    }

    /// The index ranges to draw, one per draw command and in order, or `None` when no
    /// index was uploaded (then nothing is drawn at all).
    pub fn draw_ranges(&self) -> (plan: Option<Vec<(u32, u32)>>)
        ensures
            plan is None <==> self.uploaded_index_count() == 0,
            plan matches Some(p) ==> p@.len() == self.commands().len() && forall|k: int|
                0 <= k < p@.len() ==> #[trigger] p@[k] == (
                    self.commands()[k].1[0] as u32,
                    self.commands()[k].1[1] as u32,
                ),
    {
        if self.index_count == 0 {
            return None;
        }
        let mut plan: Vec<(u32, u32)> = Vec::new();
        let n = self.draw_command_list.len();
        for k in 0..n
            invariant
                n == self.commands().len(),
                plan@.len() == k,
                forall|i: int|
                    0 <= i < k ==> #[trigger] plan@[i] == (
                        self.commands()[i].1[0] as u32,
                        self.commands()[i].1[1] as u32,
                    ),
        {
            let range = self.draw_command_list[k].1;
            plan.push((range[0] as u32, range[1] as u32));
        }
        Some(plan)
    }

    /// The bind group of draw command `k`.
    pub fn command_bind_group(&self, k: usize) -> (g: &G)
        requires
            k < self.commands().len(),
        ensures
            *g == self.commands()[k as int].0,
    {
        &self.draw_command_list[k].0
    }

    /// The queued vertices.
    pub fn vertices(&self) -> (v: &Vec<V>)
        ensures
            v@ == self.vertex_seq(),
    {
        &self.vertices
    }

    /// The queued indices as the bytes that go into the GPU index buffer: two per
    /// index, in the machine's byte order.
    pub fn index_bytes(&self) -> (bytes: &[u8])
        ensures
            le_u16_bytes(self.index_seq(), bytes@) || be_u16_bytes(self.index_seq(), bytes@),
    {
        cast_u16_slice_to_bytes(self.indices.as_slice())
    }

    /// The queued indices.
    pub fn indices(&self) -> (v: &Vec<u16>)
        ensures
            v@ == self.index_seq(),
    {
        &self.indices
    }

    /// The number of draw commands queued.
    pub fn command_count(&self) -> (n: usize)
        ensures
            n == self.commands().len(),
    {
        self.draw_command_list.len()
    }

    /// How many vertices the GPU vertex buffer holds.
    pub fn vertex_buffer_capacity(&self) -> (c: usize)
        ensures
            c == self.vertex_capacity(),
    {
        self.vertex_buffer_capacity
    }

    /// How many indices the GPU index buffer holds.
    pub fn index_buffer_capacity(&self) -> (c: usize)
        ensures
            c == self.index_capacity(),
    {
        self.index_buffer_capacity
    }

    /// How many indices were uploaded last.
    pub fn index_count(&self) -> (c: u32)
        ensures
            c == self.uploaded_index_count(),
    {
        self.index_count
    }
}

/// An operation of the renderer that changes its sizes: `push_quad`, `begin_frame` or
/// `upload` (the others change nothing).
pub enum QueueStep {
    PushQuad,
    BeginFrame,
    Upload,
}

/// The sizes `(vertex capacity, index capacity, queued vertices, queued indices)` after
/// one step: a quad adds four vertices and six indices, a new frame empties the queues,
/// and an upload grows both capacities to fit the queues unless that would overflow
/// `usize`, in which case nothing changes.
pub open spec fn sizes_after(s: (nat, nat, nat, nat), step: QueueStep) -> (nat, nat, nat, nat) {
    match step {
        QueueStep::PushQuad => (s.0, s.1, s.2 + 4, s.3 + 6),
        QueueStep::BeginFrame => (s.0, s.1, 0, 0),
        QueueStep::Upload => if grown_capacity(s.0, s.2) <= usize::MAX && grown_capacity(s.1, s.3)
            <= usize::MAX {
            (grown_capacity(s.0, s.2), grown_capacity(s.1, s.3), s.2, s.3)
        } else {
            s
        },
    }
}

/// The sizes after the steps `steps`, first to last.
pub open spec fn sizes_after_steps(s: (nat, nat, nat, nat), steps: Seq<QueueStep>) -> (
    nat,
    nat,
    nat,
    nat,
)
    decreases steps.len(),
{
    if steps.len() == 0 {
        s
    } else {
        sizes_after(sizes_after_steps(s, steps.drop_last()), steps.last())
    }
}

/// Over any sequence of renderer operations from positive capacities: the capacities
/// stay positive and never shrink, and right after an upload both queues fit in their
/// buffers unless growing them would have overflowed `usize`.
pub proof fn lemma_capacities_over_steps(s: (nat, nat, nat, nat), steps: Seq<QueueStep>)
    requires
        s.0 > 0,
        s.1 > 0,
    ensures
        sizes_after_steps(s, steps).0 >= s.0,
        sizes_after_steps(s, steps).1 >= s.1,
        steps.len() > 0 && steps.last() is Upload ==> {
            let t = sizes_after_steps(s, steps);
            ||| t.2 <= t.0 && t.3 <= t.1
            ||| grown_capacity(t.0, t.2) > usize::MAX
            ||| grown_capacity(t.1, t.3) > usize::MAX
        },
    decreases steps.len(),
{
    if steps.len() > 0 {
        let p = sizes_after_steps(s, steps.drop_last());
        lemma_capacities_over_steps(s, steps.drop_last());
        lemma_grown_capacity(p.0, p.2);
        lemma_grown_capacity(p.1, p.3);
    }
}

/// What growing the buffers gives: `None` exactly when doubling one of them would
/// overflow, capacities unchanged; otherwise each capacity becomes `grown_capacity` of
/// its queue length, and the flags say which buffers had to grow.
pub open spec fn capacity_outcome(
    grown: Option<(bool, bool)>,
    vertex_cap: nat,
    vertex_len: nat,
    index_cap: nat,
    index_len: nat,
    new_vertex_cap: usize,
    new_index_cap: usize,
) -> bool {
    match grown {
        None => {
            &&& (grown_capacity(vertex_cap, vertex_len) > usize::MAX || grown_capacity(
                index_cap,
                index_len,
            ) > usize::MAX)
            &&& new_vertex_cap == vertex_cap
            &&& new_index_cap == index_cap
        },
        Some((vertex_grown, index_grown)) => {
            &&& grown_capacity(vertex_cap, vertex_len) <= usize::MAX
            &&& grown_capacity(index_cap, index_len) <= usize::MAX
            &&& new_vertex_cap == grown_capacity(vertex_cap, vertex_len)
            &&& new_index_cap == grown_capacity(index_cap, index_len)
            &&& vertex_grown == (vertex_len > vertex_cap)
            &&& index_grown == (index_len > index_cap)
        },
    }
}

/// `b` holds the values of `v` in order, two bytes each, low byte first.
pub open spec fn le_u16_bytes(v: Seq<u16>, b: Seq<u8>) -> bool {
    &&& b.len() == 2 * v.len()
    &&& forall|i: int| 0 <= i < v.len() ==> #[trigger] v[i] as int == b[2 * i] + 256 * b[2 * i + 1]
}

/// `b` holds the values of `v` in order, two bytes each, high byte first.
pub open spec fn be_u16_bytes(v: Seq<u16>, b: Seq<u8>) -> bool {
    &&& b.len() == 2 * v.len()
    &&& forall|i: int| 0 <= i < v.len() ==> #[trigger] v[i] as int == 256 * b[2 * i] + b[2 * i + 1]
}

/// Calls `bytemuck::cast_slice::<u16, u8>`, which reinterprets the memory of the slice
/// as bytes without copying: two bytes per value, in the machine's byte order (so the
/// contract claims the low-byte-first layout or the high-byte-first layout, not which).
/// For `u16` to `u8` the cast never fails: the byte alignment is no stricter and the
/// byte length is always a whole number of bytes.
#[verifier::external_body]
fn cast_u16_slice_to_bytes(values: &[u16]) -> (bytes: &[u8])
    ensures
        le_u16_bytes(values@, bytes@) || be_u16_bytes(values@, bytes@),
{
    bytemuck::cast_slice::<u16, u8>(values)
}

/// Doubles `cap` until it holds `len` items; `None` when a doubling would overflow.
fn grow(cap: usize, len: usize) -> (r: Option<usize>)
    requires
        cap > 0,
    ensures
        r is Some <==> grown_capacity(cap as nat, len as nat) <= usize::MAX,
        r matches Some(c) ==> c == grown_capacity(cap as nat, len as nat),
{
    let mut c = cap;
    while len > c
        invariant
            c > 0,
            grown_capacity(c as nat, len as nat) == grown_capacity(cap as nat, len as nat),
        decreases (if len > c { len - c } else { 0 }),
    {
        match c.checked_mul(2) {
            Some(d) => {
                c = d;
            },
            None => {
                proof {
                    lemma_grown_capacity(c as nat * 2, len as nat);
                }
                return None;
            },
        }
    }
    Some(c)
}

/// Every queued quad `k` is drawn as the two triangles `(4k, 4k+1, 4k+2)` and
/// `(4k+1, 4k+3, 4k+2)` over its own four vertices, vertex numbers taken modulo 2^16:
/// together the two triangles use all four corners, so each quad covers its whole
/// rectangle. Its draw command covers index positions `6k` to `6k + 6`, modulo 2^16.
pub proof fn lemma_each_quad_draws_its_four_vertices<V, G>(r: &UiRenderer<V, G>)
    requires
        r.well_formed(),
    ensures
        forall|k: int|
            0 <= k < r.commands().len() ==> {
                &&& #[trigger] r.index_seq()[6 * k] as int == (4 * k) % 0x1_0000
                &&& r.index_seq()[6 * k + 1] as int == (4 * k) % 0x1_0000 + 1
                &&& r.index_seq()[6 * k + 2] as int == (4 * k) % 0x1_0000 + 2
                &&& r.index_seq()[6 * k + 3] as int == (4 * k) % 0x1_0000 + 1
                &&& r.index_seq()[6 * k + 4] as int == (4 * k) % 0x1_0000 + 3
                &&& r.index_seq()[6 * k + 5] as int == (4 * k) % 0x1_0000 + 2
                &&& r.commands()[k].1[0] as int == (6 * k) % 0x1_0000
                &&& r.commands()[k].1[1] as int == (6 * k + 6) % 0x1_0000
            },
{
    assert forall|k: int| 0 <= k < r.commands().len() implies {
        &&& #[trigger] r.index_seq()[6 * k] as int == (4 * k) % 0x1_0000
        &&& r.index_seq()[6 * k + 1] as int == (4 * k) % 0x1_0000 + 1
        &&& r.index_seq()[6 * k + 2] as int == (4 * k) % 0x1_0000 + 2
        &&& r.index_seq()[6 * k + 3] as int == (4 * k) % 0x1_0000 + 1
        &&& r.index_seq()[6 * k + 4] as int == (4 * k) % 0x1_0000 + 3
        &&& r.index_seq()[6 * k + 5] as int == (4 * k) % 0x1_0000 + 2
        &&& r.commands()[k].1[0] as int == (6 * k) % 0x1_0000
        &&& r.commands()[k].1[1] as int == (6 * k + 6) % 0x1_0000
    } by {
        let o = (4 * k) % 0x1_0000;
        assert(o == 4 * (k % 0x4000)) by (nonlinear_arith)
            requires
                0 <= k,
                o == (4 * k) % 0x1_0000,
        ;
        assert(0 <= o <= 65532);
        assert((o as u16) as int == o);
        assert(r.index_seq()[6 * k + 0] == quad_indices(o as u16)[0]);
        assert(r.index_seq()[6 * k + 1] == quad_indices(o as u16)[1]);
        assert(r.index_seq()[6 * k + 2] == quad_indices(o as u16)[2]);
        assert(r.index_seq()[6 * k + 3] == quad_indices(o as u16)[3]);
        assert(r.index_seq()[6 * k + 4] == quad_indices(o as u16)[4]);
        assert(r.index_seq()[6 * k + 5] == quad_indices(o as u16)[5]);
        assert(r.commands()[k].1[0] == ((6 * k) % 0x1_0000) as u16);
        assert(r.commands()[k].1[1] == ((6 * k + 6) % 0x1_0000) as u16);
    }
}

/// As long as a frame holds at most 65536 vertices, every queued index names a queued
/// vertex.
pub proof fn lemma_indices_name_queued_vertices<V, G>(r: &UiRenderer<V, G>)
    requires
        r.well_formed(),
        r.vertex_seq().len() <= 0x1_0000,
    ensures
        forall|i: int| 0 <= i < r.index_seq().len() ==> (#[trigger] r.index_seq()[i] as int) < r.vertex_seq().len(),
{
    assert forall|i: int| 0 <= i < r.index_seq().len() implies (#[trigger] r.index_seq()[i] as int)
        < r.vertex_seq().len() by {
        let k = i / 6;
        let j = i % 6;
        assert(i == 6 * k + j);
        assert(0 <= k < r.commands().len());
        assert(r.index_seq()[6 * k + j] == quad_indices((4 * k) as u16)[j]);
        assert(4 * k + 4 <= r.vertex_seq().len());
        assert(((4 * k) as u16) as int == 4 * k);
    }
}

/// As long as a frame holds at most 65535 indices, the draw commands split the index
/// list, in order, into runs of six: command `k` draws exactly indices `6k .. 6k + 6`, and
/// the last command ends where the list ends.
pub proof fn lemma_commands_tile_indices<V, G>(r: &UiRenderer<V, G>)
    requires
        r.well_formed(),
        r.index_seq().len() <= 0xffff,
    ensures
        forall|k: int|
            0 <= k < r.commands().len() ==> (#[trigger] r.commands()[k]).1[0] as int == 6 * k && r.commands()[k].1[1] as int == 6 * k + 6,
        r.commands().len() > 0 ==> r.commands().last().1[1] as int == r.index_seq().len(),
{
    assert forall|k: int| 0 <= k < r.commands().len() implies (#[trigger] r.commands()[k]).1[0] as int == 6
        * k && r.commands()[k].1[1] as int == 6 * k + 6 by {
        assert(r.commands()[k].1[0] == (6 * k) as u16);
        assert(r.commands()[k].1[1] == (6 * k + 6) as u16);
    }
}

} // verus!
