use gui_bridge::frame::GuiContext;
use gui_bridge::registry::{ImageRef, TextureRegistry};
use gui_bridge::renderer::{RenderError, RendererState};
use gui_bridge::scale::Settings;
use gui_bridge::snapshot::{ClipRect, DrawCmd, DrawSnapshot};
use gui_bridge::sync::{RenderState, SyncDecision, TargetDesc};

fn draw(texture: usize) -> DrawCmd {
    DrawCmd {
        texture,
        clip: ClipRect { x0: 0, y0: 0, x1: 800, y1: 600 },
        idx_count: 6,
        idx_offset: 0,
        vtx_offset: 0,
    }
}

fn frame_with(ctx: &mut GuiContext, draws: Vec<DrawCmd>) -> DrawSnapshot {
    let s = ctx.begin_frame().unwrap();
    ctx.end_frame(s, draws).unwrap()
}

fn all_resident(rs: &RenderState) -> Vec<Option<u64>> {
    rs.pending_adds().iter().map(|p| Some(p.image + 1000)).collect()
}

#[test]
fn end_to_end_register_draw_unregister_then_stale_handle_fails() {
    let settings = Settings::default();
    let mut reg = TextureRegistry::new();
    let mut ctx = GuiContext::new();
    let mut rs = RenderState::new(1, 1000, 0);
    let target = Some(TargetDesc { format: 1, scale_millis: 1000 });

    // Four prior registrations consume handles 1 through 4.
    for image in 10..14u64 {
        reg.register(ImageRef::Strong(image));
    }
    let h = reg.register(ImageRef::Strong(99));
    assert_eq!(h, 5);

    // A frame that references handle 5 crosses the boundary and paints.
    let snap = frame_with(&mut ctx, vec![draw(5)]);
    assert_eq!(rs.sync_begin(&mut reg, target, &settings), SyncDecision::Proceed);
    rs.sync_deltas(&mut reg, Some(snap));
    let resolutions = all_resident(&rs);
    let ops = rs.sync_apply(&resolutions).unwrap();
    assert!(ops.uploads.iter().any(|u| u.handle == 5));
    assert!(ops.frees.is_empty());
    assert!(rs.renderer().is_texture_bound(5));
    let snap = rs.take_draw().unwrap();
    assert!(rs.renderer().check_draws(&snap).is_ok());

    // Unregistering 5 frees its binding at the next drain.
    reg.unregister(5);
    let snap = frame_with(&mut ctx, vec![draw(1)]);
    assert_eq!(rs.sync_begin(&mut reg, target, &settings), SyncDecision::Proceed);
    rs.sync_deltas(&mut reg, Some(snap));
    let resolutions = all_resident(&rs);
    let ops = rs.sync_apply(&resolutions).unwrap();
    assert_eq!(ops.frees, vec![5]);
    assert!(!rs.renderer().is_texture_bound(5));

    // A later frame still referencing the stale handle 5 is refused.
    let stale = frame_with(&mut ctx, vec![draw(5)]);
    assert_eq!(rs.sync_begin(&mut reg, target, &settings), SyncDecision::Proceed);
    rs.sync_deltas(&mut reg, Some(stale));
    let resolutions = all_resident(&rs);
    let _ = rs.sync_apply(&resolutions).unwrap();
    let stale = rs.take_draw().unwrap();
    assert_eq!(
        rs.renderer().check_draws(&stale).unwrap_err(),
        RenderError::TextureNotBound { handle: 5 }
    );
}

#[test]
fn end_to_end_format_change_rebuilds_and_rebinds_everything() {
    let settings = Settings::default();
    let mut reg = TextureRegistry::new();
    let mut ctx = GuiContext::new();
    let mut rs = RenderState::new(1, 1000, 0);

    // Two textures registered and bound under format 1.
    let ha = reg.register(ImageRef::Strong(500));
    let hb = reg.register(ImageRef::Strong(600));
    let snap = frame_with(&mut ctx, vec![draw(ha), draw(hb)]);
    let target_a = Some(TargetDesc { format: 1, scale_millis: 1000 });
    assert_eq!(rs.sync_begin(&mut reg, target_a, &settings), SyncDecision::Proceed);
    rs.sync_deltas(&mut reg, Some(snap));
    let resolutions = all_resident(&rs);
    let _ = rs.sync_apply(&resolutions).unwrap();
    assert!(rs.renderer().is_texture_bound(ha));
    assert!(rs.renderer().is_texture_bound(hb));
    assert_eq!(rs.renderer().state(), RendererState::Bound { format: 1, scale_millis: 1000 });

    // The target switches to format 2: Bound(1) -> Rebuilding -> Bound(2).
    let target_b = Some(TargetDesc { format: 2, scale_millis: 1000 });
    let snap = frame_with(&mut ctx, vec![draw(ha), draw(hb)]);
    let decision = rs.sync_begin(&mut reg, target_b, &settings);
    let plan = match decision {
        SyncDecision::Rebuild(plan) => plan,
        other => panic!("expected a rebuild, got {:?}", other),
    };
    assert_eq!(plan.format, 2);
    assert_eq!(plan.old_scale_millis, 1000);
    assert_eq!(plan.new_scale_millis, 1000);
    assert_eq!(plan.font.size_px, 13);
    assert_eq!(
        rs.renderer().state(),
        RendererState::Rebuilding { format: 2, scale_millis: 1000 }
    );
    assert_eq!(rs.renderer().bound_count(), 0);

    // The regenerated atlas's texture becomes the only bound texture.
    rs.sync_finish_rebuild(&mut reg, 7);
    assert_eq!(rs.renderer().state(), RendererState::Bound { format: 2, scale_millis: 1000 });
    assert_eq!(rs.renderer().font_texture(), 7);
    assert_eq!(rs.renderer().bound_count(), 0);

    // Both handles come back through the next drain, with no registration
    // call, and are re-bound before the next successful paint.
    rs.sync_deltas(&mut reg, Some(snap));
    let pending: Vec<usize> = rs.pending_adds().iter().map(|p| p.handle).collect();
    assert!(pending.contains(&ha));
    assert!(pending.contains(&hb));
    let resolutions = all_resident(&rs);
    let ops = rs.sync_apply(&resolutions).unwrap();
    assert!(ops.uploads.iter().any(|u| u.handle == ha));
    assert!(ops.uploads.iter().any(|u| u.handle == hb));
    let snap = rs.take_draw().unwrap();
    assert!(rs.renderer().check_draws(&snap).is_ok());

    // New handles never collide with the font texture id.
    let hc = reg.register(ImageRef::Strong(700));
    assert_eq!(hc, 8);
}

#[test]
fn missing_target_skips_the_frame_and_changes_nothing() {
    let settings = Settings::default();
    let mut reg = TextureRegistry::new();
    let mut rs = RenderState::new(1, 1000, 0);
    let h = reg.register(ImageRef::Strong(10));
    assert_eq!(rs.sync_begin(&mut reg, None, &settings), SyncDecision::SkipFrame);
    assert_eq!(rs.renderer().state(), RendererState::Bound { format: 1, scale_millis: 1000 });
    let (adds, removes) = reg.drain_deltas();
    assert_eq!(adds, vec![h]);
    assert!(removes.is_empty());
}

#[test]
fn scale_change_alone_forces_a_rebuild() {
    let settings = Settings::default();
    let mut reg = TextureRegistry::new();
    let mut rs = RenderState::new(1, 1000, 0);
    let target = Some(TargetDesc { format: 1, scale_millis: 2000 });
    let decision = rs.sync_begin(&mut reg, target, &settings);
    let plan = match decision {
        SyncDecision::Rebuild(plan) => plan,
        other => panic!("expected a rebuild, got {:?}", other),
    };
    assert_eq!(plan.old_scale_millis, 1000);
    assert_eq!(plan.new_scale_millis, 2000);
    assert_eq!(plan.font.size_px, 26);
    assert_eq!(plan.font.oversample_h, 2);
    rs.sync_finish_rebuild(&mut reg, 0);
    assert_eq!(rs.renderer().state(), RendererState::Bound { format: 1, scale_millis: 2000 });
}

#[test]
fn unresolved_image_is_fatal_and_names_the_handle() {
    let settings = Settings::default();
    let mut reg = TextureRegistry::new();
    let mut rs = RenderState::new(1, 1000, 0);
    let h = reg.register(ImageRef::Strong(10));
    assert_eq!(
        rs.sync_begin(&mut reg, Some(TargetDesc { format: 1, scale_millis: 1000 }), &settings),
        SyncDecision::Proceed
    );
    rs.sync_deltas(&mut reg, None);
    let resolutions: Vec<Option<u64>> = rs.pending_adds().iter().map(|_| None).collect();
    assert_eq!(
        rs.sync_apply(&resolutions).unwrap_err(),
        RenderError::ImageNotResident { handle: h }
    );
    // Nothing was applied: the pending addition is still there.
    assert_eq!(rs.pending_adds().len(), 1);
}

#[test]
fn removal_applies_before_readd_in_one_batch() {
    let settings = Settings::default();
    let mut reg = TextureRegistry::new();
    let mut rs = RenderState::new(1, 1000, 0);
    // Registered and unregistered with no drain between: the handle crosses
    // in both queues, its removal applies first, and it ends up unbound.
    let h = reg.register(ImageRef::Strong(10));
    reg.unregister(h);
    assert_eq!(
        rs.sync_begin(&mut reg, Some(TargetDesc { format: 1, scale_millis: 1000 }), &settings),
        SyncDecision::Proceed
    );
    rs.sync_deltas(&mut reg, None);
    assert_eq!(rs.pending_removes(), &vec![h]);
    let resolutions = all_resident(&rs);
    let ops = rs.sync_apply(&resolutions).unwrap();
    assert_eq!(ops.frees, vec![h]);
    assert!(!rs.renderer().is_texture_bound(h));
}

#[test]
fn a_handle_queued_twice_in_one_drain_is_bound_once() {
    let settings = Settings::default();
    let mut reg = TextureRegistry::new();
    let mut rs = RenderState::new(1, 1000, 0);
    // A registration immediately followed by a rebuild queues the same
    // handle twice: once by the registration, once by the re-marking.
    let h = reg.register(ImageRef::Strong(10));
    let decision =
        rs.sync_begin(&mut reg, Some(TargetDesc { format: 2, scale_millis: 1000 }), &settings);
    assert!(matches!(decision, SyncDecision::Rebuild(_)));
    rs.sync_finish_rebuild(&mut reg, 0);
    rs.sync_deltas(&mut reg, None);
    assert_eq!(rs.pending_adds().len(), 2);
    let resolutions = all_resident(&rs);
    let ops = rs.sync_apply(&resolutions).unwrap();
    // The second upload replaces the first; the binding table holds the
    // handle once.
    assert_eq!(ops.uploads.len(), 2);
    assert_eq!(rs.renderer().bound_count(), 1);
    assert!(rs.renderer().is_texture_bound(h));
}

#[test]
fn stale_snapshot_is_replaced_and_consumed_at_most_once() {
    let settings = Settings::default();
    let mut reg = TextureRegistry::new();
    let mut ctx = GuiContext::new();
    let mut rs = RenderState::new(1, 1000, 0);
    let target = Some(TargetDesc { format: 1, scale_millis: 1000 });

    let first = frame_with(&mut ctx, vec![draw(0)]);
    let second = frame_with(&mut ctx, Vec::new());
    let _ = rs.sync_begin(&mut reg, target, &settings);
    rs.sync_deltas(&mut reg, Some(first));
    // The render phase ran late: the next frame's snapshot replaces the
    // unconsumed one.
    let _ = rs.sync_begin(&mut reg, target, &settings);
    rs.sync_deltas(&mut reg, Some(second));
    let got = rs.take_draw().unwrap();
    assert_eq!(got.frame(), 1);
    assert!(rs.take_draw().is_none());
}
