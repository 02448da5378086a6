use gui_bridge::frame::{GuiContext, UsageError};
use gui_bridge::snapshot::{ClipRect, DrawCmd};

fn draw(texture: usize) -> DrawCmd {
    DrawCmd {
        texture,
        clip: ClipRect { x0: 0, y0: 0, x1: 640, y1: 480 },
        idx_count: 6,
        idx_offset: 0,
        vtx_offset: 0,
    }
}

#[test]
fn begin_end_cycle_produces_numbered_snapshots() {
    let mut ctx = GuiContext::new();
    let s0 = ctx.begin_frame().unwrap();
    let snap0 = ctx.end_frame(s0, vec![draw(1)]).unwrap();
    assert_eq!(snap0.frame(), 0);
    assert_eq!(snap0.draw_count(), 1);
    assert_eq!(snap0.draws()[0].texture, 1);
    let s1 = ctx.begin_frame().unwrap();
    let snap1 = ctx.end_frame(s1, Vec::new()).unwrap();
    assert_eq!(snap1.frame(), 1);
    assert_eq!(snap1.draw_count(), 0);
    assert_eq!(ctx.frames(), 2);
}

#[test]
fn begin_while_a_session_is_live_fails() {
    let mut ctx = GuiContext::new();
    let s = ctx.begin_frame().unwrap();
    assert_eq!(ctx.begin_frame().unwrap_err(), UsageError::SessionAlreadyLive);
    assert!(ctx.is_frame_live());
    let _ = ctx.end_frame(s, Vec::new()).unwrap();
    assert!(!ctx.is_frame_live());
    assert!(ctx.begin_frame().is_ok());
}

#[test]
fn end_frame_invalidates_the_session() {
    let mut ctx = GuiContext::new();
    let s = ctx.begin_frame().unwrap();
    let id = s.id();
    assert_eq!(ctx.ui_session().unwrap(), id);
    let _ = ctx.end_frame(s, Vec::new()).unwrap();
    assert!(!ctx.is_frame_live());
    let s2 = ctx.begin_frame().unwrap();
    assert_ne!(s2.id(), id);
    let _ = ctx.end_frame(s2, Vec::new()).unwrap();
}

#[test]
fn ui_session_outside_a_frame_fails() {
    let mut ctx = GuiContext::new();
    assert_eq!(ctx.ui_session().unwrap_err(), UsageError::NoLiveSession);
    let s = ctx.begin_frame().unwrap();
    assert!(ctx.ui_session().is_ok());
    let _ = ctx.end_frame(s, Vec::new()).unwrap();
    assert_eq!(ctx.ui_session().unwrap_err(), UsageError::NoLiveSession);
}
