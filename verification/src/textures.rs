use vstd::prelude::*;
use std::collections::HashMap;

verus! {

broadcast use vstd::std_specs::hash::group_hash_axioms;

/// One pixel, four channels of 0–255 each.
#[derive(Clone, Copy, PartialEq, Eq, Structural, Debug)]
pub struct Color {
    pub r: u8,
    pub g: u8,
    pub b: u8,
    pub a: u8,
}

/// Pixel content of one texture creation or update, row-major.
#[derive(Clone, PartialEq, Eq, Debug)]
pub struct Image {
    pub width: usize,
    pub height: usize,
    pub pixels: Vec<Color>,
}

impl Image {
    /// The pixel buffer covers the stated dimensions, and the dimensions fit
    /// the native calls, which take them as 32-bit integers (the row stride is
    /// `width * 4` bytes).
    pub open spec fn wf(self) -> bool {
        &&& self.pixels@.len() == self.width * self.height
        &&& 4 * self.width <= i32::MAX
        &&& self.height <= i32::MAX
    }
}

/// Origin of a partial pixel-rectangle update.
#[derive(Clone, Copy, PartialEq, Eq, Structural, Debug)]
pub struct UpdateOrigin {
    pub x: usize,
    pub y: usize,
}

/// One creation/update instruction of a texture delta: new pixel content for
/// the texture `id`, applied at `pos` when partial, over the whole texture
/// when `pos` is absent.
#[derive(Clone, PartialEq, Eq, Debug)]
pub struct ImageDelta {
    pub id: u64,
    pub image: Image,
    pub pos: Option<UpdateOrigin>,
}

impl ImageDelta {
    pub open spec fn wf(self) -> bool {
        &&& self.image.wf()
        &&& match self.pos {
            Some(o) => o.x <= i32::MAX && o.y <= i32::MAX,
            None => true,
        }
    }
}

/// A per-frame texture delta: creations/updates in order, then identifiers to
/// free.
#[derive(Clone, PartialEq, Eq, Debug)]
pub struct TextureDelta {
    pub sets: Vec<ImageDelta>,
    pub frees: Vec<u64>,
}

impl TextureDelta {
    pub open spec fn wf(self) -> bool {
        forall|i: int| 0 <= i < self.sets@.len() ==> (#[trigger] self.sets@[i]).wf()
    }
}

/// An integer device rectangle, as handed to the native update call.
#[derive(Clone, Copy, PartialEq, Eq, Structural, Debug)]
pub struct Rect4 {
    pub x: i32,
    pub y: i32,
    pub w: i32,
    pub h: i32,
}

/// One native texture operation the shell must perform, in order. When
/// `fresh` holds, a native texture of `width` by `height` pixels must first be
/// created and registered under `handle`; then `bytes` is uploaded to
/// `handle`, over `rect` when partial, over the whole texture otherwise, with
/// row stride `stride`.
#[derive(Clone, PartialEq, Eq, Debug)]
pub struct TexOp {
    pub id: u64,
    pub handle: u64,
    pub fresh: bool,
    pub width: i32,
    pub height: i32,
    pub bytes: Vec<u8>,
    pub rect: Option<Rect4>,
    pub stride: i32,
}

/// The contiguous byte buffer for a pixel sequence: four bytes per pixel, in
/// channel order r, g, b, a.
pub open spec fn rgba_of(pixels: Seq<Color>) -> Seq<u8>
    decreases pixels.len(),
{
    if pixels.len() == 0 {
        Seq::empty()
    } else {
        rgba_of(pixels.drop_last()) + seq![
            pixels.last().r,
            pixels.last().g,
            pixels.last().b,
            pixels.last().a,
        ]
    }
}

pub proof fn lemma_rgba_len(pixels: Seq<Color>)
    ensures
        rgba_of(pixels).len() == 4 * pixels.len(),
    decreases pixels.len(),
{
    if pixels.len() > 0 {
        lemma_rgba_len(pixels.drop_last());
    }
}

/// Convert pixels to their contiguous RGBA byte buffer.
pub fn rgba_bytes(pixels: &Vec<Color>) -> (r: Vec<u8>)
    ensures
        r@ == rgba_of(pixels@),
{
    let mut r: Vec<u8> = Vec::new();
    let mut i: usize = 0;
    while i < pixels.len()
        invariant
            i <= pixels@.len(),
            r@ == rgba_of(pixels@.take(i as int)),
        decreases pixels@.len() - i,
    {
        let p = pixels[i];
        r.push(p.r);
        r.push(p.g);
        r.push(p.b);
        r.push(p.a);
        proof {
            assert(pixels@.take(i + 1 as int).drop_last() =~= pixels@.take(i as int));
            assert(pixels@.take(i + 1 as int).last() == pixels@[i as int]);
        }
        i = i + 1;
    }
    proof {
        assert(pixels@.take(pixels@.len() as int) =~= pixels@);
    }
    r
}

/// A well-formed cache: every cached handle was drawn from the fresh-handle
/// counter, and no two identifiers share a handle.
pub open spec fn cache_wf(m: Map<u64, u64>, next: u64) -> bool {
    &&& forall|k: u64| #[trigger] m.dom().contains(k) ==> m[k] < next
    &&& forall|k1: u64, k2: u64|
        #![trigger m[k1], m[k2]]
        m.dom().contains(k1) && m.dom().contains(k2) && m[k1] == m[k2] ==> k1 == k2
}

/// One creation/update step on the cache model: an identifier already cached
/// keeps its handle; a new identifier is bound to the next fresh handle.
pub open spec fn step_set(m: Map<u64, u64>, next: u64, id: u64) -> (Map<u64, u64>, u64) {
    if m.dom().contains(id) {
        (m, next)
    } else {
        (m.insert(id, next), (next + 1) as u64)
    }
}

/// The cache model after the creation/update instructions of a delta.
pub open spec fn apply_sets(m: Map<u64, u64>, next: u64, sets: Seq<ImageDelta>) -> (Map<u64, u64>, u64)
    decreases sets.len(),
{
    if sets.len() == 0 {
        (m, next)
    } else {
        let (m1, n1) = apply_sets(m, next, sets.drop_last());
        step_set(m1, n1, sets.last().id)
    }
}

/// The cache model after the free instructions of a delta.
pub open spec fn apply_frees(m: Map<u64, u64>, frees: Seq<u64>) -> Map<u64, u64>
    decreases frees.len(),
{
    if frees.len() == 0 {
        m
    } else {
        apply_frees(m, frees.drop_last()).remove(frees.last())
    }
}

/// The native handles a free list destroys, in order: one per freed
/// identifier that is actually cached at that point.
pub open spec fn freed_handles(m: Map<u64, u64>, frees: Seq<u64>) -> Seq<u64>
    decreases frees.len(),
{
    if frees.len() == 0 {
        Seq::empty()
    } else {
        let pre = freed_handles(m, frees.drop_last());
        let m1 = apply_frees(m, frees.drop_last());
        if m1.dom().contains(frees.last()) {
            pre.push(m1[frees.last()])
        } else {
            pre
        }
    }
}

/// The identifiers a delta creates or updates.
pub open spec fn delta_ids(sets: Seq<ImageDelta>) -> Set<u64>
    decreases sets.len(),
{
    if sets.len() == 0 {
        Set::empty()
    } else {
        delta_ids(sets.drop_last()).insert(sets.last().id)
    }
}

/// The identifiers a delta frees.
pub open spec fn free_ids(frees: Seq<u64>) -> Set<u64>
    decreases frees.len(),
{
    if frees.len() == 0 {
        Set::empty()
    } else {
        free_ids(frees.drop_last()).insert(frees.last())
    }
}

pub proof fn lemma_apply_sets(m: Map<u64, u64>, next: u64, sets: Seq<ImageDelta>)
    requires
        cache_wf(m, next),
        next + sets.len() <= u64::MAX,
    ensures
        ({
            let (m1, n1) = apply_sets(m, next, sets);
            &&& m1.dom() =~= m.dom().union(delta_ids(sets))
            &&& next <= n1 <= next + sets.len()
            &&& cache_wf(m1, n1)
            &&& forall|k: u64| #[trigger] m.dom().contains(k) ==> m1[k] == m[k]
        }),
    decreases sets.len(),
{
    if sets.len() > 0 {
        lemma_apply_sets(m, next, sets.drop_last());
    }
}

pub proof fn lemma_apply_frees(m: Map<u64, u64>, next: u64, frees: Seq<u64>)
    requires
        cache_wf(m, next),
    ensures
        apply_frees(m, frees).dom() =~= m.dom().difference(free_ids(frees)),
        cache_wf(apply_frees(m, frees), next),
        forall|k: u64| #[trigger] apply_frees(m, frees).dom().contains(k) ==> apply_frees(
            m,
            frees,
        )[k] == m[k],
    decreases frees.len(),
{
    if frees.len() > 0 {
        lemma_apply_frees(m, next, frees.drop_last());
    }
}

/// Law: for any sequence of creations, updates and frees applied as one
/// delta, the cache afterwards holds exactly the identifiers that were
/// already present or created and were not freed; each maps to one handle,
/// every identifier it had before keeps its handle unless freed, and no two
/// identifiers share a native handle.
pub proof fn lemma_cache_tracks_live_textures(
    m: Map<u64, u64>,
    next: u64,
    sets: Seq<ImageDelta>,
    frees: Seq<u64>,
)
    requires
        cache_wf(m, next),
        next + sets.len() <= u64::MAX,
    ensures
        ({
            let (m1, n1) = apply_sets(m, next, sets);
            let m2 = apply_frees(m1, frees);
            &&& m2.dom() =~= m.dom().union(delta_ids(sets)).difference(free_ids(frees))
            &&& cache_wf(m2, n1)
            &&& forall|k: u64|
                m.dom().contains(k) && #[trigger] m2.dom().contains(k) ==> m2[k] == m[k]
        }),
{
    lemma_apply_sets(m, next, sets);
    let (m1, n1) = apply_sets(m, next, sets);
    lemma_apply_frees(m1, n1, frees);
}

/// One whole delta on the cache model: the creation/update instructions,
/// then the frees.
pub open spec fn apply_delta(m: Map<u64, u64>, next: u64, d: TextureDelta) -> (Map<u64, u64>, u64) {
    let (m1, n1) = apply_sets(m, next, d.sets@);
    (apply_frees(m1, d.frees@), n1)
}

/// The cache model after a sequence of per-frame deltas.
pub open spec fn apply_deltas(m: Map<u64, u64>, next: u64, deltas: Seq<TextureDelta>) -> (
    Map<u64, u64>,
    u64,
)
    decreases deltas.len(),
{
    if deltas.len() == 0 {
        (m, next)
    } else {
        let (m1, n1) = apply_deltas(m, next, deltas.drop_last());
        apply_delta(m1, n1, deltas.last())
    }
}

/// The identifiers alive after a sequence of deltas: those alive before or
/// created, minus those freed, frame by frame.
pub open spec fn live_ids(dom: Set<u64>, deltas: Seq<TextureDelta>) -> Set<u64>
    decreases deltas.len(),
{
    if deltas.len() == 0 {
        dom
    } else {
        live_ids(dom, deltas.drop_last()).union(delta_ids(deltas.last().sets@)).difference(
            free_ids(deltas.last().frees@),
        )
    }
}

/// How many creation/update instructions a sequence of deltas carries.
pub open spec fn total_sets(deltas: Seq<TextureDelta>) -> nat
    decreases deltas.len(),
{
    if deltas.len() == 0 {
        0
    } else {
        total_sets(deltas.drop_last()) + deltas.last().sets@.len()
    }
}

/// Law: over any sequence of texture deltas, the cache holds exactly the
/// identifiers that were created and not yet freed, each mapped to exactly
/// one native handle, and no two identifiers share a handle.
pub proof fn lemma_cache_tracks_live_over_frames(
    m: Map<u64, u64>,
    next: u64,
    deltas: Seq<TextureDelta>,
)
    requires
        cache_wf(m, next),
        next + total_sets(deltas) <= u64::MAX,
    ensures
        ({
            let (m1, n1) = apply_deltas(m, next, deltas);
            &&& m1.dom() =~= live_ids(m.dom(), deltas)
            &&& cache_wf(m1, n1)
            &&& next <= n1 <= next + total_sets(deltas)
        }),
    decreases deltas.len(),
{
    if deltas.len() > 0 {
        lemma_cache_tracks_live_over_frames(m, next, deltas.drop_last());
        let (m1, n1) = apply_deltas(m, next, deltas.drop_last());
        lemma_cache_tracks_live_textures(m1, n1, deltas.last().sets@, deltas.last().frees@);
        lemma_apply_sets(m1, n1, deltas.last().sets@);
    }
}

/// Law: an update of an identifier already cached reuses the cached handle,
/// and no spurious recreation follows. If the identifier is cached before a
/// delta and the delta does not free it, the cache afterwards still maps it
/// to the very same handle.
pub proof fn lemma_update_keeps_handle(
    m: Map<u64, u64>,
    next: u64,
    sets: Seq<ImageDelta>,
    frees: Seq<u64>,
    id: u64,
)
    requires
        cache_wf(m, next),
        next + sets.len() <= u64::MAX,
        m.dom().contains(id),
        !free_ids(frees).contains(id),
    ensures
        ({
            let (m1, n1) = apply_sets(m, next, sets);
            let m2 = apply_frees(m1, frees);
            m2.dom().contains(id) && m2[id] == m[id]
        }),
{
    lemma_apply_sets(m, next, sets);
    let (m1, n1) = apply_sets(m, next, sets);
    lemma_apply_frees(m1, n1, frees);
}

/// The mapping from opaque texture identifiers to live native texture
/// handles, with the counter the next fresh handle is drawn from.
#[derive(Debug)]
pub struct TextureCache {
    map: HashMap<u64, u64>,
    next: u64,
}

impl View for TextureCache {
    type V = Map<u64, u64>;

    closed spec fn view(&self) -> Map<u64, u64> {
        self.map@
    }
}

impl TextureCache {
    pub closed spec fn next_of(self) -> u64 {
        self.next
    }

    pub open spec fn wf(self) -> bool {
        cache_wf(self@, self.next_of())
    }

    pub fn new() -> (c: TextureCache)
        ensures
            c@ == Map::<u64, u64>::empty(),
            c.next_of() == 0,
            c.wf(),
    {
        TextureCache { map: HashMap::new(), next: 0 }
    }

    /// The live native handle for an identifier, if any.
    pub fn lookup(&self, id: u64) -> (r: Option<u64>)
        ensures
            r == (if self@.dom().contains(id) {
                Some(self@[id])
            } else {
                None::<u64>
            }),
    {
        match self.map.get(&id) {
            Some(h) => Some(*h),
            None => None,
        }
    }

    /// How many fresh handles have ever been drawn; bounds the next delta.
    pub fn handle_count(&self) -> (r: u64)
        ensures
            r == self.next_of(),
    {
        self.next
    }

    /// Perform the creation/update instructions of a delta on the cache and
    /// say which native texture operations realize them, one per instruction,
    /// in order.
    pub fn apply_sets_exec(&mut self, sets: &Vec<ImageDelta>) -> (ops: Vec<TexOp>)
        requires
            old(self).wf(),
            (forall|i: int| 0 <= i < sets@.len() ==> (#[trigger] sets@[i]).wf()),
            old(self).next_of() + sets@.len() <= u64::MAX,
        ensures
            (final(self)@, final(self).next_of()) == apply_sets(
                old(self)@,
                old(self).next_of(),
                sets@,
            ),
            final(self).wf(),
            ops@.len() == sets@.len(),
            forall|i: int|
                0 <= i < sets@.len() ==> op_matches(
                    #[trigger] ops@[i],
                    sets@[i],
                    apply_sets(old(self)@, old(self).next_of(), sets@.take(i)),
                ),
    {
        let ghost m0 = self@;
        let ghost n0 = self.next_of();
        let mut ops: Vec<TexOp> = Vec::new();
        let mut i: usize = 0;
        while i < sets.len()
            invariant
                i <= sets@.len(),
                (forall|j: int| 0 <= j < sets@.len() ==> (#[trigger] sets@[j]).wf()),
                cache_wf(m0, n0),
                n0 + sets@.len() <= u64::MAX,
                (self@, self.next_of()) == apply_sets(m0, n0, sets@.take(i as int)),
                self.wf(),
                ops@.len() == i,
                forall|j: int|
                    0 <= j < i ==> op_matches(
                        #[trigger] ops@[j],
                        sets@[j],
                        apply_sets(m0, n0, sets@.take(j)),
                    ),
            decreases sets@.len() - i,
        {
            proof {
                lemma_apply_sets(m0, n0, sets@.take(i as int));
                assert(sets@.take(i + 1 as int).drop_last() =~= sets@.take(i as int));
            }
            let d = &sets[i];
            let (handle, fresh): (u64, bool) = match self.lookup(d.id) {
                Some(h) => (h, false),
                None => {
                    let h = self.next;
                    self.map.insert(d.id, h);
                    self.next = self.next + 1;
                    (h, true)
                },
            };
            let bytes = rgba_bytes(&d.image.pixels);
            let rect: Option<Rect4> = match &d.pos {
                Some(o) => Some(
                    Rect4 {
                        x: o.x as i32,
                        y: o.y as i32,
                        w: d.image.width as i32 - o.x as i32,
                        h: d.image.height as i32 - o.y as i32,
                    },
                ),
                None => None,
            };
            let stride = (d.image.width * 4) as i32;
            ops.push(
                TexOp {
                    id: d.id,
                    handle,
                    fresh,
                    width: d.image.width as i32,
                    height: d.image.height as i32,
                    bytes,
                    rect,
                    stride,
                },
            );
            i = i + 1;
        }
        proof {
            assert(sets@.take(sets@.len() as int) =~= sets@);
        }
        ops
    }

    /// Perform the free instructions of a delta on the cache and say which
    /// native handles must be destroyed, in order.
    pub fn apply_frees_exec(&mut self, frees: &Vec<u64>) -> (destroyed: Vec<u64>)
        requires
            old(self).wf(),
        ensures
            final(self)@ == apply_frees(old(self)@, frees@),
            final(self).next_of() == old(self).next_of(),
            final(self).wf(),
            destroyed@ == freed_handles(old(self)@, frees@),
    {
        let ghost m0 = self@;
        let mut destroyed: Vec<u64> = Vec::new();
        let mut i: usize = 0;
        while i < frees.len()
            invariant
                i <= frees@.len(),
                cache_wf(m0, self.next_of()),
                self@ == apply_frees(m0, frees@.take(i as int)),
                self.next_of() == old(self).next_of(),
                self.wf(),
                destroyed@ == freed_handles(m0, frees@.take(i as int)),
            decreases frees@.len() - i,
        {
            proof {
                assert(frees@.take(i + 1 as int).drop_last() =~= frees@.take(i as int));
            }
            let id = frees[i];
            match self.map.remove(&id) {
                Some(h) => destroyed.push(h),
                None => (),
            }
            i = i + 1;
        }
        proof {
            assert(frees@.take(frees@.len() as int) =~= frees@);
        }
        destroyed
    }
}

/// What a native texture operation must look like for a given instruction,
/// with `st` the cache model just before it: the handle is the cached one, or
/// the next fresh one for an identifier seen for the first time; the bytes
/// are the image's RGBA buffer; a partial update carries the rectangle from
/// the update origin to the image's far corner; the stride is four bytes per
/// pixel of image width.
pub open spec fn op_matches(op: TexOp, d: ImageDelta, st: (Map<u64, u64>, u64)) -> bool {
    let (m, next) = st;
    &&& op.id == d.id
    &&& op.fresh == !m.dom().contains(d.id)
    &&& op.handle == (if m.dom().contains(d.id) {
        m[d.id]
    } else {
        next
    })
    &&& op.width as int == d.image.width as int
    &&& op.height as int == d.image.height as int
    &&& op.bytes@ == rgba_of(d.image.pixels@)
    &&& op.stride as int == 4 * d.image.width as int
    &&& match d.pos {
        Some(o) => op.rect == Some(
            Rect4 {
                x: o.x as i32,
                y: o.y as i32,
                w: (d.image.width - o.x) as i32,
                h: (d.image.height - o.y) as i32,
            },
        ),
        None => op.rect is None,
    }
}

} // verus!
