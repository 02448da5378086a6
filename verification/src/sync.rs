//! The phase boundary: the render-side state that receives each frame's
//! snapshot and texture deltas from the update side, decides when the
//! renderer must be rebuilt, and applies the deltas to the binding table.

use vstd::prelude::*;
use vstd::pervasive::unreached;
use crate::registry::{RegistryView, TextureRegistry};
use crate::renderer::{GpuRenderer, GpuRendererView, RenderError, RendererState};
use crate::scale::{font_plan_spec, plan_font, FontPlan, Settings};
use crate::snapshot::{DrawSnapshot, SnapshotView};

verus! {

/// What the render phase observed of the true target this frame: the
/// swapchain's pixel format (an opaque code) and the display scale in
/// thousandths. Absent when there is no window, surface, or known format —
/// a recoverable condition that only skips this frame's paint.
#[derive(Clone, Copy, PartialEq, Eq, Structural, Debug)]
pub struct TargetDesc {
    /// Opaque code of the target's pixel format.
    pub format: u32,
    /// The display's scale factor, in thousandths.
    pub scale_millis: u32,
}

/// One pending GPU-side addition: the handle and the external image whose
/// GPU representation must be bound under it.
#[derive(Clone, Copy, PartialEq, Eq, Structural, Debug)]
pub struct PendingAdd {
    /// The texture handle to bind.
    pub handle: usize,
    /// The external image registered under the handle.
    pub image: u64,
}

/// One binding the GPU must create: the handle and the GPU-resident
/// representation of its image.
#[derive(Clone, Copy, PartialEq, Eq, Structural, Debug)]
pub struct GpuUpload {
    /// The texture handle to bind.
    pub handle: usize,
    /// The GPU-resident representation to bind under it.
    pub gpu_image: u64,
}

/// The GPU work implied by one applied delta batch: free the bindings of
/// `frees`, then create a binding for each of `uploads`.
#[derive(Debug)]
pub struct GpuOps {
    /// Handles whose GPU bindings must be freed.
    pub frees: Vec<usize>,
    /// Bindings to create, in order; a later upload of the same handle
    /// replaces an earlier one.
    pub uploads: Vec<GpuUpload>,
}

/// What the caller must rebuild when the target's key changed: recreate the
/// pipeline for `format`, regenerate the font atlas per `font`, and rescale
/// the UI style by `new_scale_millis / old_scale_millis`.
#[derive(Clone, Copy, PartialEq, Eq, Structural, Debug)]
pub struct RebuildPlan {
    /// The pixel format the new pipeline must target.
    pub format: u32,
    /// The scale the renderer was keyed to before.
    pub old_scale_millis: u32,
    /// The scale the renderer is rebuilt for.
    pub new_scale_millis: u32,
    /// The parameters the font atlas is regenerated with.
    pub font: FontPlan,
}

/// The outcome of [`RenderState::sync_begin`].
#[derive(Clone, Copy, PartialEq, Eq, Structural, Debug)]
pub enum SyncDecision {
    /// No target is available; skip this frame's paint, change nothing.
    SkipFrame,
    /// The target still matches the renderer's key; proceed as usual.
    Proceed,
    /// The target's format or scale changed: the renderer has been torn
    /// down, every live handle is re-marked for re-add, and the caller must
    /// execute this plan, then call `sync_finish_rebuild`.
    Rebuild(RebuildPlan),
}

/// The mathematical state of a [`RenderState`].
#[verifier::ext_equal]
pub struct RenderStateView {
    /// The renderer's state.
    pub renderer: GpuRendererView,
    /// Additions drained from the registry, waiting for GPU application.
    pub pending_adds: Seq<PendingAdd>,
    /// Removals drained from the registry, waiting for GPU application.
    pub pending_removes: Seq<usize>,
    /// The most recent completed frame's snapshot, if not yet consumed.
    pub draw: Option<SnapshotView>,
}

/// The handles of a pending-addition sequence, in order.
pub open spec fn pending_handles(s: Seq<PendingAdd>) -> Seq<usize> {
    s.map_values(|p: PendingAdd| p.handle)
}

/// The pending additions that a drained add queue resolves to against the
/// registry `v`: handles no longer live are dropped (their removal is in the
/// same batch), the rest carry their registered image.
pub open spec fn resolve_adds(adds: Seq<usize>, v: RegistryView) -> Seq<PendingAdd>
    decreases adds.len(),
{
    if adds.len() == 0 {
        Seq::empty()
    } else {
        let rest = resolve_adds(adds.drop_last(), v);
        let h = adds.last();
        if v.has_handle(h) {
            rest.push(PendingAdd { handle: h, image: v.image_of(h) })
        } else {
            rest
        }
    }
}

/// The render-phase half of the bridge: owns the GPU renderer's logical
/// state, the deltas in flight between a drain and their GPU application,
/// and the latest snapshot.
///
/// Per frame the protocol is: `sync_begin` (and, if it decides a rebuild,
/// `sync_finish_rebuild` once the new atlas exists), then `sync_deltas`
/// against the update-side registry, then `sync_apply` once the caller has
/// resolved every pending image to its GPU representation, then `take_draw`
/// and paint.
pub struct RenderState {
    renderer: GpuRenderer,
    pending_adds: Vec<PendingAdd>,
    pending_removes: Vec<usize>,
    draw: Option<DrawSnapshot>,
}

impl View for RenderState {
    type V = RenderStateView;

    closed spec fn view(&self) -> RenderStateView {
        RenderStateView {
            renderer: self.renderer@,
            pending_adds: self.pending_adds@,
            pending_removes: self.pending_removes@,
            draw: match self.draw {
                Some(d) => Some(d@),
                None => None,
            },
        }
    }
}

impl RenderState {
    /// A render state around a freshly bound renderer, with nothing pending
    /// and no snapshot.
    pub fn new(format: u32, scale_millis: u32, font_texture: usize) -> (r: RenderState)
        ensures
            r@ == (RenderStateView {
                renderer: GpuRendererView {
                    state: RendererState::Bound { format, scale_millis },
                    bound: Seq::empty(),
                    font_texture,
                },
                pending_adds: Seq::empty(),
                pending_removes: Seq::empty(),
                draw: None,
            }),
            r@.renderer.wf(),
    {
        RenderState {
            renderer: GpuRenderer::new(format, scale_millis, font_texture),
            pending_adds: Vec::new(),
            pending_removes: Vec::new(),
            draw: None,
        }
    }

    /// The renderer's logical state, for the paint step.
    pub fn renderer(&self) -> (r: &GpuRenderer)
        ensures
            r@ == self@.renderer,
    {
        &self.renderer
    }

    /// The additions waiting for GPU application, for the caller to resolve.
    pub fn pending_adds(&self) -> (r: &Vec<PendingAdd>)
        ensures
            r@ == self@.pending_adds,
    {
        &self.pending_adds
    }

    /// The removals waiting for GPU application.
    pub fn pending_removes(&self) -> (r: &Vec<usize>)
        ensures
            r@ == self@.pending_removes,
    {
        &self.pending_removes
    }

    /// Opens a frame's synchronization: decides, from what the render phase
    /// observed of the true target, whether this frame is skipped (no
    /// target), painted as usual (key unchanged), or must first rebuild the
    /// renderer (format or scale changed). On the rebuild path the renderer
    /// is torn down to `Rebuilding`, its bindings are discarded, and every
    /// live handle in `registry` is re-marked for re-add.
    pub fn sync_begin(
        &mut self,
        registry: &mut TextureRegistry,
        target: Option<TargetDesc>,
        settings: &Settings,
    ) -> (r: SyncDecision)
        requires
            old(self)@.renderer.state is Bound,
            old(self)@.renderer.wf(),
            old(registry)@.wf(),
        ensures
            final(self)@.renderer.wf(),
            final(registry)@.wf(),
            final(self)@.pending_adds == old(self)@.pending_adds,
            final(self)@.pending_removes == old(self)@.pending_removes,
            final(self)@.draw == old(self)@.draw,
            target is None ==> r == SyncDecision::SkipFrame && final(self)@ == old(self)@
                && final(registry)@ == old(registry)@,
            target matches Some(t) ==> (if old(self)@.renderer.state == (RendererState::Bound {
                format: t.format,
                scale_millis: t.scale_millis,
            }) {
                r == SyncDecision::Proceed && final(self)@ == old(self)@ && final(registry)@
                    == old(registry)@
            } else {
                r == SyncDecision::Rebuild(
                    RebuildPlan {
                        format: t.format,
                        old_scale_millis: old(self)@.renderer.state->Bound_scale_millis,
                        new_scale_millis: t.scale_millis,
                        font: font_plan_spec(*settings, t.scale_millis),
                    },
                ) && final(self)@.renderer == (GpuRendererView {
                    state: RendererState::Rebuilding {
                        format: t.format,
                        scale_millis: t.scale_millis,
                    },
                    bound: Seq::empty(),
                    font_texture: old(self)@.renderer.font_texture,
                }) && final(registry)@ == old(registry)@.mark_all_t()
            }),
    {
        let t = match target {
            None => {
                return SyncDecision::SkipFrame;
            },
            Some(t) => t,
        };
        let (cur_format, cur_scale) = match self.renderer.state() {
            RendererState::Bound { format, scale_millis } => (format, scale_millis),
            RendererState::Rebuilding { .. } => unreached(),
        };
        if cur_format == t.format && cur_scale == t.scale_millis {
            return SyncDecision::Proceed;
        }
        self.renderer.begin_rebuild(t.format, t.scale_millis);
        registry.mark_all_for_readd();
        let font = plan_font(settings, t.scale_millis);
        SyncDecision::Rebuild(
            RebuildPlan {
                format: t.format,
                old_scale_millis: cur_scale,
                new_scale_millis: t.scale_millis,
                font,
            },
        )
    }

    /// Completes a rebuild decided by `sync_begin`: the renderer is bound to
    /// the new key with the regenerated atlas's font texture — at that point
    /// the font texture is the only texture bound — and the registry's
    /// allocation counter is bumped past the font id so no future handle can
    /// alias it.
    pub fn sync_finish_rebuild(
        &mut self,
        registry: &mut TextureRegistry,
        font_texture: usize,
    )
        requires
            old(self)@.renderer.state is Rebuilding,
            old(self)@.renderer.wf(),
            old(registry)@.wf(),
            font_texture < usize::MAX,
        ensures
            final(self)@.renderer == (GpuRendererView {
                state: RendererState::Bound {
                    format: old(self)@.renderer.state->Rebuilding_format,
                    scale_millis: old(self)@.renderer.state->Rebuilding_scale_millis,
                },
                bound: old(self)@.renderer.bound,
                font_texture,
            }),
            final(self)@.renderer.wf(),
            final(self)@.pending_adds == old(self)@.pending_adds,
            final(self)@.pending_removes == old(self)@.pending_removes,
            final(self)@.draw == old(self)@.draw,
            final(registry)@ == old(registry)@.note_font_t(font_texture),
            final(registry)@.wf(),
    {
        self.renderer.finish_rebuild(font_texture);
        registry.note_font_texture(font_texture);
    }

    /// Moves one frame across the boundary: drains the registry's deltas —
    /// so each delta crosses exactly once — resolves the drained additions
    /// against the registry (a handle unregistered since its add was queued
    /// is dropped; its removal is in the same batch), and replaces the held
    /// snapshot with this frame's, discarding an unconsumed older one.
    pub fn sync_deltas(
        &mut self,
        registry: &mut TextureRegistry,
        snapshot: Option<DrawSnapshot>,
    )
        requires
            old(registry)@.wf(),
        ensures
            final(registry)@ == old(registry)@.drained_t(),
            final(registry)@.wf(),
            final(self)@.renderer == old(self)@.renderer,
            final(self)@.pending_adds == resolve_adds(old(registry)@.to_add, old(registry)@),
            final(self)@.pending_removes == old(registry)@.to_remove,
            snapshot matches Some(s) ==> final(self)@.draw == Some(s@),
            snapshot is None ==> final(self)@.draw is None,
    {
        let (adds, removes) = registry.drain_deltas();
        let ghost rv = old(registry)@;
        let mut pending: Vec<PendingAdd> = Vec::new();
        let n = adds.len();
        let mut i: usize = 0;
        while i < n
            invariant
                i <= n,
                n == adds@.len(),
                adds@ == rv.to_add,
                registry@ == rv.drained_t(),
                registry@.wf(),
                pending@ == resolve_adds(rv.to_add.subrange(0, i as int), rv),
            decreases n - i,
        {
            let ghost pre = rv.to_add.subrange(0, i as int);
            let ghost post = rv.to_add.subrange(0, i + 1int);
            proof {
                assert(post.drop_last() =~= pre);
                assert(post.last() == rv.to_add[i as int]);
                assert(registry@.entries == rv.entries);
                assert forall|h: usize| registry@.has_handle(h) <==> rv.has_handle(h) by {
                    assert(registry@.entries == rv.entries);
                }
            }
            let h = adds[i];
            match registry.lookup(h) {
                Some(image) => {
                    proof {
                        assert(rv.has_handle(h));
                        assert(rv.index_of(h) == registry@.index_of(h));
                        assert(image == rv.image_of(h));
                    }
                    pending.push(PendingAdd { handle: h, image });
                },
                None => {
                    proof {
                        assert(!rv.has_handle(h));
                    }
                },
            }
            i = i + 1;
        }
        proof {
            assert(rv.to_add.subrange(0, n as int) =~= rv.to_add);
        }
        self.pending_adds = pending;
        self.pending_removes = removes;
        self.draw = snapshot;
    }

    /// Applies the pending deltas to the binding table, once the caller has
    /// resolved each pending image to its GPU-resident representation
    /// (`resolutions` is parallel to the pending additions). If any image
    /// has none, nothing changes and the first such handle is reported: a
    /// not-yet-loaded image at this point is a breach of the registration
    /// contract, which this bridge refuses rather than papering over.
    /// Otherwise removals are applied before additions and the implied GPU
    /// work is returned.
    pub fn sync_apply(&mut self, resolutions: &Vec<Option<u64>>) -> (r: Result<
        GpuOps,
        RenderError,
    >)
        requires
            old(self)@.renderer.wf(),
            resolutions@.len() == old(self)@.pending_adds.len(),
        ensures
            r is Ok <==> (forall|i: int|
                0 <= i < resolutions@.len() ==> #[trigger] resolutions@[i] is Some),
            r matches Err(e) ==> final(self)@ == old(self)@ && (e matches
                RenderError::ImageNotResident { handle } && exists|i: int|
                0 <= i < resolutions@.len() && #[trigger] resolutions@[i] is None && old(
                    self,
                )@.pending_adds[i].handle == handle),
            r matches Ok(ops) ==> ops.frees@ == old(self)@.pending_removes && ops.uploads@.len()
                == old(self)@.pending_adds.len() && (forall|i: int|
                0 <= i < ops.uploads@.len() ==> #[trigger] ops.uploads@[i] == (GpuUpload {
                    handle: old(self)@.pending_adds[i].handle,
                    gpu_image: resolutions@[i]->0,
                })) && final(self)@.pending_adds.len() == 0 && final(self)@.pending_removes.len()
                == 0 && final(self)@.draw == old(self)@.draw && final(self)@.renderer.state == old(
                self,
            )@.renderer.state && final(self)@.renderer.font_texture == old(
                self,
            )@.renderer.font_texture && final(self)@.renderer.wf() && (forall|h: usize|
                #![trigger final(self)@.renderer.bound.contains(h)]
                final(self)@.renderer.bound.contains(h) <==> ((old(self)@.renderer.bound.contains(
                    h,
                ) && !old(self)@.pending_removes.contains(h)) || pending_handles(
                    old(self)@.pending_adds,
                ).contains(h))),
    {
        let n = self.pending_adds.len();
        let mut i: usize = 0;
        while i < n
            invariant
                i <= n,
                n == self@.pending_adds.len(),
                n == resolutions@.len(),
                forall|j: int| 0 <= j < i ==> #[trigger] resolutions@[j] is Some,
            decreases n - i,
        {
            if resolutions[i].is_none() {
                return Err(RenderError::ImageNotResident { handle: self.pending_adds[i].handle });
            }
            i = i + 1;
        }
        let mut handles: Vec<usize> = Vec::new();
        let mut uploads: Vec<GpuUpload> = Vec::new();
        let mut j: usize = 0;
        let ghost pa = self@.pending_adds;
        while j < n
            invariant
                j <= n,
                n == self@.pending_adds.len(),
                n == resolutions@.len(),
                pa == self@.pending_adds,
                forall|k: int| 0 <= k < n ==> #[trigger] resolutions@[k] is Some,
                handles@.len() == j,
                uploads@.len() == j,
                forall|k: int| 0 <= k < j ==> #[trigger] handles@[k] == pa[k].handle,
                forall|k: int|
                    0 <= k < j ==> #[trigger] uploads@[k] == (GpuUpload {
                        handle: pa[k].handle,
                        gpu_image: resolutions@[k]->0,
                    }),
            decreases n - j,
        {
            let p = self.pending_adds[j];
            let g = match resolutions[j] {
                Some(g) => g,
                None => unreached(),
            };
            handles.push(p.handle);
            uploads.push(GpuUpload { handle: p.handle, gpu_image: g });
            j = j + 1;
        }
        proof {
            assert(handles@ =~= pending_handles(pa));
        }
        let mut frees: Vec<usize> = Vec::new();
        core::mem::swap(&mut frees, &mut self.pending_removes);
        self.renderer.apply_texture_ops(&frees, &handles);
        self.pending_adds = Vec::new();
        Ok(GpuOps { frees, uploads })
    }

    /// Hands over the latest snapshot, if one is waiting, leaving none
    /// behind: the render phase consumes each snapshot at most once, and a
    /// frame with no new snapshot paints nothing.
    pub fn take_draw(&mut self) -> (r: Option<DrawSnapshot>)
        ensures
            r is Some <==> old(self)@.draw is Some,
            r matches Some(d) ==> old(self)@.draw == Some(d@),
            final(self)@.draw is None,
            final(self)@.renderer == old(self)@.renderer,
            final(self)@.pending_adds == old(self)@.pending_adds,
            final(self)@.pending_removes == old(self)@.pending_removes,
    {
        let mut d: Option<DrawSnapshot> = None;
        core::mem::swap(&mut d, &mut self.draw);
        d
    }
}

/// Helper for the law below: a handle that is live in `v` and occurs in a
/// drained add queue survives resolution against `v`.
proof fn lemma_resolve_keeps_live_handles(adds: Seq<usize>, v: RegistryView, h: usize)
    requires
        adds.contains(h),
        v.has_handle(h),
    ensures
        pending_handles(resolve_adds(adds, v)).contains(h),
    decreases adds.len(),
{
    let i = choose|i: int| 0 <= i < adds.len() && adds[i] == h;
    let rest = resolve_adds(adds.drop_last(), v);
    if i == adds.len() - 1 {
        assert(adds.last() == h);
        let resolved = resolve_adds(adds, v);
        assert(resolved.last() == (PendingAdd { handle: h, image: v.image_of(h) }));
        assert(pending_handles(resolved)[resolved.len() - 1] == h);
    } else {
        assert(adds.drop_last()[i] == h);
        assert(adds.drop_last().contains(h));
        lemma_resolve_keeps_live_handles(adds.drop_last(), v, h);
        let k = choose|k: int|
            0 <= k < pending_handles(rest).len() && pending_handles(rest)[k] == h;
        let resolved = resolve_adds(adds, v);
        if v.has_handle(adds.last()) {
            assert(resolved[k] == rest[k]);
            assert(pending_handles(resolved)[k] == h);
        } else {
            assert(pending_handles(resolved)[k] == h);
        }
    }
}

/// Law: after a format or scale change re-marks the registry, every handle
/// that was registered and is still live reaches the render side among the
/// pending additions of the very next drain — with no new registration call
/// by the caller.
pub proof fn lemma_rebuild_readds_reach_render_side(v: RegistryView, h: usize)
    requires
        v.wf(),
        v.has_handle(h),
    ensures
        pending_handles(resolve_adds(v.mark_all_t().to_add, v.mark_all_t())).contains(h),
{
    let marked = v.mark_all_t();
    crate::registry::lemma_rebuild_readds_every_live_handle(v, h);
    assert(marked.entries == v.entries);
    assert(marked.has_handle(h));
    lemma_resolve_keeps_live_handles(marked.to_add, marked, h);
}

} // verus!
