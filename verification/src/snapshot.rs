//! The immutable draw snapshot: the fully owned copy of one completed
//! frame's render commands that crosses the phase boundary.

use vstd::prelude::*;

verus! {

/// An axis-aligned clip rectangle in framebuffer pixels.
#[derive(Clone, Copy, PartialEq, Eq, Structural, Debug)]
pub struct ClipRect {
    pub x0: i32,
    pub y0: i32,
    pub x1: i32,
    pub y1: i32,
}

/// One recorded draw call: a run of indexed triangles, clipped to `clip`,
/// sampling the texture registered under `texture`.
#[derive(Clone, Copy, PartialEq, Eq, Structural, Debug)]
pub struct DrawCmd {
    /// The texture handle this draw samples; the render phase refuses the
    /// snapshot if this is neither the font texture nor a bound handle.
    pub texture: usize,
    /// The clip rectangle applied to the draw.
    pub clip: ClipRect,
    /// How many indices the draw consumes.
    pub idx_count: u32,
    /// Offset of the first index in the frame's index buffer.
    pub idx_offset: u32,
    /// Offset added to every index to reach the frame's vertex buffer.
    pub vtx_offset: u32,
}

/// The mathematical state of a [`DrawSnapshot`].
#[verifier::ext_equal]
pub struct SnapshotView {
    /// The number of the frame that produced the snapshot.
    pub frame: u64,
    /// The frame's draw calls, in submission order.
    pub draws: Seq<DrawCmd>,
}

impl SnapshotView {
    /// Whether some draw of the snapshot samples texture `h`.
    pub open spec fn references(self, h: usize) -> bool {
        exists|i: int| 0 <= i < self.draws.len() && self.draws[i].texture == h
    }
}

/// An immutable value object holding one frame's render commands. It is
/// produced once, when the frame ends, and owned independently of the GUI
/// context whose buffers are reused for the next frame; it can therefore
/// cross the phase boundary by move and is consumed at most once.
pub struct DrawSnapshot {
    frame: u64,
    draws: Vec<DrawCmd>,
}

impl View for DrawSnapshot {
    type V = SnapshotView;

    closed spec fn view(&self) -> SnapshotView {
        SnapshotView { frame: self.frame, draws: self.draws@ }
    }
}

impl DrawSnapshot {
    /// Seals one frame's draw commands. Only the frame lifecycle creates
    /// snapshots: one per ended frame.
    pub(crate) fn new(frame: u64, draws: Vec<DrawCmd>) -> (r: DrawSnapshot)
        ensures
            r@ == (SnapshotView { frame, draws: draws@ }),
    {
        DrawSnapshot { frame, draws }
    }

    /// The number of the frame that produced this snapshot.
    pub fn frame(&self) -> (r: u64)
        ensures
            r == self@.frame,
    {
        self.frame
    }

    /// The recorded draw calls, in submission order.
    pub fn draws(&self) -> (r: &Vec<DrawCmd>)
        ensures
            r@ == self@.draws,
    {
        &self.draws
    }

    /// How many draw calls the snapshot holds.
    pub fn draw_count(&self) -> (r: usize)
        ensures
            r == self@.draws.len(),
    {
        self.draws.len()
    }
}

} // verus!
