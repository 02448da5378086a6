//! The render-phase side of the bridge: the GPU renderer's binding table and
//! its format/scale-keyed rebuild state machine.

use vstd::prelude::*;
use crate::snapshot::DrawSnapshot;

verus! {

/// A failure of the resource-binding contract. Both variants are fatal by
/// design: the caller guaranteed the image resident and the handle bound, so
/// no safe substitute behaviour exists here.
#[derive(Clone, Copy, PartialEq, Eq, Structural, Debug)]
pub enum RenderError {
    /// A pending addition named an image with no GPU-resident representation.
    ImageNotResident { handle: usize },
    /// A draw referenced a handle that is neither bound nor the font texture.
    TextureNotBound { handle: usize },
}

/// Where the renderer stands in the rebuild protocol. The renderer is keyed
/// by the render target's pixel format and the display's scale factor
/// (stated in thousandths); a change of either forces the transition
/// `Bound -> Rebuilding -> Bound`.
#[derive(Clone, Copy, PartialEq, Eq, Structural, Debug)]
pub enum RendererState {
    /// Pipeline state exists for this format and scale; draws may be issued.
    Bound { format: u32, scale_millis: u32 },
    /// The old pipeline and non-font bindings are gone; the renderer waits
    /// for the regenerated font atlas before it is bound to the new key.
    Rebuilding { format: u32, scale_millis: u32 },
}

/// The mathematical state of a [`GpuRenderer`].
#[verifier::ext_equal]
pub struct GpuRendererView {
    /// The rebuild state, carrying the (pending) format and scale key.
    pub state: RendererState,
    /// The non-font handles with a live GPU binding, each at most once.
    pub bound: Seq<usize>,
    /// The id of the font texture, which is implicitly always bound.
    pub font_texture: usize,
}

impl GpuRendererView {
    /// Well-formedness: no handle is bound twice.
    pub open spec fn wf(self) -> bool {
        self.bound.no_duplicates()
    }

    /// Whether a draw referencing `t` may be painted: `t` is the font
    /// texture or a bound handle.
    pub open spec fn is_bound_tex(self, t: usize) -> bool {
        t == self.font_texture || self.bound.contains(t)
    }
}

/// The GPU-resident side of the texture protocol: a write-only binding
/// table keyed by texture handle, plus the pipeline's format/scale key.
///
/// The actual GPU objects (pipelines, samplers, bind groups) live with the
/// render backend; this type decides, and remembers, which handles have a
/// binding and when the whole state must be torn down and rebuilt.
pub struct GpuRenderer {
    state: RendererState,
    bound: Vec<usize>,
    font_texture: usize,
}

impl View for GpuRenderer {
    type V = GpuRendererView;

    closed spec fn view(&self) -> GpuRendererView {
        GpuRendererView { state: self.state, bound: self.bound@, font_texture: self.font_texture }
    }
}

/// Whether `x` occurs in `v`.
fn vec_contains(v: &Vec<usize>, x: usize) -> (r: bool)
    ensures
        r == v@.contains(x),
{
    let n = v.len();
    let mut i: usize = 0;
    while i < n
        invariant
            i <= n,
            n == v@.len(),
            forall|j: int| 0 <= j < i ==> v@[j] != x,
        decreases n - i,
    {
        if v[i] == x {
            return true;
        }
        i = i + 1;
    }
    false
}

impl GpuRenderer {
    /// A renderer freshly bound to `format` and `scale_millis`, with the
    /// given font texture and no other binding.
    pub fn new(format: u32, scale_millis: u32, font_texture: usize) -> (r: GpuRenderer)
        ensures
            r@ == (GpuRendererView {
                state: RendererState::Bound { format, scale_millis },
                bound: Seq::empty(),
                font_texture,
            }),
            r@.wf(),
    {
        GpuRenderer {
            state: RendererState::Bound { format, scale_millis },
            bound: Vec::new(),
            font_texture,
        }
    }

    /// The renderer's rebuild state.
    pub fn state(&self) -> (r: RendererState)
        ensures
            r == self@.state,
    {
        self.state
    }

    /// The id of the font texture.
    pub fn font_texture(&self) -> (r: usize)
        ensures
            r == self@.font_texture,
    {
        self.font_texture
    }

    /// Whether a draw referencing `t` could be painted right now.
    pub fn is_texture_bound(&self, t: usize) -> (r: bool)
        ensures
            r == self@.is_bound_tex(t),
    {
        t == self.font_texture || vec_contains(&self.bound, t)
    }

    /// How many non-font handles are bound.
    pub fn bound_count(&self) -> (r: usize)
        ensures
            r == self@.bound.len(),
    {
        self.bound.len()
    }

    /// Tears the renderer down for a new target key: every non-font binding
    /// is discarded (the font atlas regeneration invalidates them all), and
    /// the renderer waits in `Rebuilding` for the new font texture.
    pub fn begin_rebuild(&mut self, format: u32, scale_millis: u32)
        requires
            old(self)@.state is Bound,
        ensures
            final(self)@ == (GpuRendererView {
                state: RendererState::Rebuilding { format, scale_millis },
                bound: Seq::empty(),
                font_texture: old(self)@.font_texture,
            }),
            final(self)@.wf(),
    {
        self.state = RendererState::Rebuilding { format, scale_millis };
        self.bound = Vec::new();
    }

    /// Completes a rebuild: the renderer is bound to the key recorded at
    /// `begin_rebuild`, with `font_texture` as the regenerated font atlas's
    /// texture. Coming from `begin_rebuild`, the binding table is empty, so
    /// the font texture is at that point the only texture bound.
    pub fn finish_rebuild(&mut self, font_texture: usize)
        requires
            old(self)@.state is Rebuilding,
        ensures
            final(self)@ == (GpuRendererView {
                state: RendererState::Bound {
                    format: old(self)@.state->Rebuilding_format,
                    scale_millis: old(self)@.state->Rebuilding_scale_millis,
                },
                bound: old(self)@.bound,
                font_texture,
            }),
            old(self)@.wf() ==> final(self)@.wf(),
    {
        match self.state {
            RendererState::Rebuilding { format, scale_millis } => {
                self.state = RendererState::Bound { format, scale_millis };
            },
            RendererState::Bound { .. } => vstd::pervasive::unreached(),
        }
        self.font_texture = font_texture;
    }

    /// Applies one drained delta batch to the binding table: removals first,
    /// then additions, so that a handle removed and re-added in the same
    /// batch ends up bound. Adding an already-bound handle replaces its
    /// binding, which leaves the table unchanged here.
    pub fn apply_texture_ops(&mut self, removes: &Vec<usize>, adds: &Vec<usize>)
        requires
            old(self)@.wf(),
        ensures
            final(self)@.wf(),
            final(self)@.state == old(self)@.state,
            final(self)@.font_texture == old(self)@.font_texture,
            forall|h: usize| #![trigger final(self)@.bound.contains(h)]
                final(self)@.bound.contains(h) <==> ((old(self)@.bound.contains(h)
                    && !removes@.contains(h)) || adds@.contains(h)),
    {
        let ghost v0 = self@;
        let n = self.bound.len();
        let mut kept: Vec<usize> = Vec::new();
        let mut i: usize = 0;
        while i < n
            invariant
                i <= n,
                n == v0.bound.len(),
                self@ == v0,
                v0.bound.no_duplicates(),
                kept@.no_duplicates(),
                forall|h: usize|
                    kept@.contains(h) <==> (v0.bound.subrange(0, i as int).contains(h)
                        && !removes@.contains(h)),
            decreases n - i,
        {
            let h = self.bound[i];
            let ghost pre = v0.bound.subrange(0, i as int);
            let ghost post = v0.bound.subrange(0, i + 1int);
            proof {
                assert(post.drop_last() =~= pre);
                assert(post.last() == v0.bound[i as int]);
                let cur_h = v0.bound[i as int];
                assert forall|x: usize| post.contains(x) <==> (pre.contains(x) || x == cur_h) by {
                    if post.contains(x) {
                        let k = choose|k: int| 0 <= k < post.len() && post[k] == x;
                        if k < pre.len() {
                            assert(pre[k] == x);
                        }
                    }
                    if pre.contains(x) {
                        let k = choose|k: int| 0 <= k < pre.len() && pre[k] == x;
                        assert(post[k] == x);
                    }
                    if x == v0.bound[i as int] {
                        assert(post[i as int] == x);
                    }
                }
            }
            if !vec_contains(removes, h) {
                proof {
                    if kept@.contains(h) {
                        assert(pre.contains(h));
                        let k = choose|k: int| 0 <= k < pre.len() && pre[k] == h;
                        assert(v0.bound[k] == v0.bound[i as int]);
                        assert(false);
                    }
                    let ghost knew = kept@.push(h);
                    assert forall|a: int, b: int|
                        0 <= a < b < knew.len() implies knew[a] != knew[b] by {
                        if b < kept@.len() {
                        } else {
                            assert(knew[b] == h);
                            assert(kept@.contains(kept@[a]));
                        }
                    }
                    assert forall|x: usize| knew.contains(x) <==> (kept@.contains(x) || x == h) by {
                        if knew.contains(x) {
                            let k = choose|k: int| 0 <= k < knew.len() && knew[k] == x;
                            if k < kept@.len() {
                                assert(kept@[k] == x);
                            }
                        }
                        if kept@.contains(x) {
                            let k = choose|k: int| 0 <= k < kept@.len() && kept@[k] == x;
                            assert(knew[k] == x);
                        }
                        if x == h {
                            assert(knew[kept@.len() as int] == x);
                        }
                    }
                }
                kept.push(h);
            }
            i = i + 1;
        }
        proof {
            assert(v0.bound.subrange(0, n as int) =~= v0.bound);
            assert(forall|h: usize|
                kept@.contains(h) <==> (v0.bound.contains(h) && !removes@.contains(h)));
        }
        self.bound = kept;
        let m = adds.len();
        let ghost v1 = self@;
        let mut j: usize = 0;
        while j < m
            invariant
                j <= m,
                m == adds@.len(),
                self@.state == v1.state,
                self@.font_texture == v1.font_texture,
                self@.bound.no_duplicates(),
                forall|h: usize|
                    self@.bound.contains(h) <==> (v1.bound.contains(h) || adds@.subrange(
                        0,
                        j as int,
                    ).contains(h)),
            decreases m - j,
        {
            let a = adds[j];
            let ghost pre = adds@.subrange(0, j as int);
            let ghost post = adds@.subrange(0, j + 1int);
            proof {
                assert(forall|h: usize|
                    self@.bound.contains(h) <==> (v1.bound.contains(h) || pre.contains(h)));
                let cur_a = adds@[j as int];
                assert forall|x: usize| post.contains(x) <==> (pre.contains(x) || x == cur_a) by {
                    if post.contains(x) {
                        let k = choose|k: int| 0 <= k < post.len() && post[k] == x;
                        if k < pre.len() {
                            assert(pre[k] == x);
                        }
                    }
                    if pre.contains(x) {
                        let k = choose|k: int| 0 <= k < pre.len() && pre[k] == x;
                        assert(post[k] == x);
                    }
                    if x == adds@[j as int] {
                        assert(post[j as int] == x);
                    }
                }
            }
            let already = vec_contains(&self.bound, a);
            if !already {
                let ghost cur = self@.bound;
                let ghost cnew = cur.push(a);
                proof {
                    assert forall|x: int, y: int|
                        0 <= x < y < cnew.len() implies cnew[x] != cnew[y] by {
                        if y < cur.len() {
                        } else {
                            assert(cnew[y] == a);
                            assert(cur.contains(cur[x]));
                        }
                    }
                    assert forall|x: usize| cnew.contains(x) <==> (cur.contains(x) || x == a) by {
                        if cnew.contains(x) {
                            let k = choose|k: int| 0 <= k < cnew.len() && cnew[k] == x;
                            if k < cur.len() {
                                assert(cur[k] == x);
                            }
                        }
                        if cur.contains(x) {
                            let k = choose|k: int| 0 <= k < cur.len() && cur[k] == x;
                            assert(cnew[k] == x);
                        }
                        if x == a {
                            assert(cnew[cur.len() as int] == x);
                        }
                    }
                }
                self.bound.push(a);
                proof {
                    assert(self@.bound =~= cnew);
                    assert forall|h: usize|
                        self@.bound.contains(h) <==> (v1.bound.contains(h) || post.contains(
                            h,
                        )) by {
                        assert(cnew.contains(h) <==> (cur.contains(h) || h == a));
                        assert(post.contains(h) <==> (pre.contains(h) || h == a));
                        assert(cur.contains(h) <==> (v1.bound.contains(h) || pre.contains(h)));
                    }
                }
            } else {
                proof {
                    assert(self@.bound.contains(a));
                    assert forall|h: usize|
                        self@.bound.contains(h) <==> (v1.bound.contains(h) || post.contains(
                            h,
                        )) by {
                        assert(post.contains(h) <==> (pre.contains(h) || h == a));
                        assert(self@.bound.contains(h) <==> (v1.bound.contains(h) || pre.contains(
                            h,
                        )));
                    }
                }
            }
            j = j + 1;
        }
        proof {
            assert(adds@.subrange(0, m as int) =~= adds@);
            assert(forall|h: usize|
                self@.bound.contains(h) <==> (v1.bound.contains(h) || adds@.contains(h)));
            assert(forall|h: usize|
                v1.bound.contains(h) <==> (v0.bound.contains(h) && !removes@.contains(h)));
        }
    }

    /// Decides whether a snapshot may be painted: every draw must reference
    /// either the font texture or a handle with a live binding. On the first
    /// draw that does not, the snapshot is refused — a stale or never-bound
    /// handle is a contract violation, not something to paint around.
    pub fn check_draws(&self, snap: &DrawSnapshot) -> (r: Result<(), RenderError>)
        ensures
            r is Ok <==> (forall|i: int|
                0 <= i < snap@.draws.len() ==> self@.is_bound_tex(
                    #[trigger] snap@.draws[i].texture,
                )),
            r matches Err(e) ==> e matches RenderError::TextureNotBound { handle }
                && snap@.references(handle) && !self@.is_bound_tex(handle),
    {
        let draws = snap.draws();
        let n = draws.len();
        let mut i: usize = 0;
        while i < n
            invariant
                i <= n,
                n == snap@.draws.len(),
                draws@ == snap@.draws,
                forall|j: int|
                    0 <= j < i ==> self@.is_bound_tex(#[trigger] snap@.draws[j].texture),
            decreases n - i,
        {
            let t = draws[i].texture;
            if !self.is_texture_bound(t) {
                return Err(RenderError::TextureNotBound { handle: t });
            }
            i = i + 1;
        }
        Ok(())
    }
}

} // verus!
