//! The frame lifecycle: a checked begin/end protocol around the GUI
//! library's per-frame state, with at most one live session at a time.

use vstd::prelude::*;
use crate::snapshot::{DrawCmd, DrawSnapshot, SnapshotView};

verus! {

/// A misuse of the frame protocol. These are programmer errors: the caller
/// is expected to fail loudly on them rather than continue, since continuing
/// would corrupt frame state.
#[derive(Clone, Copy, PartialEq, Eq, Structural, Debug)]
pub enum UsageError {
    /// A frame was begun while another session was still live.
    SessionAlreadyLive,
    /// A session was ended, or accessed, while no session was live.
    NoLiveSession,
    /// A session was ended that is not the one currently live.
    SessionMismatch,
}

/// The mathematical state of a [`GuiContext`].
pub struct GuiContextView {
    /// The id of the live session, if a frame is currently being built.
    pub live: Option<u64>,
    /// The id the next session will get.
    pub next_session: u64,
    /// How many frames have been completed.
    pub frames: u64,
}

/// Whether `id` names the session that is live in `c`.
pub open spec fn session_live(c: GuiContextView, id: u64) -> bool {
    c.live == Some(id)
}

/// The live, single-instance handle representing "currently building this
/// frame's UI". It is obtained from [`GuiContext::begin_frame`], cannot be
/// cloned, and is consumed by value by [`GuiContext::end_frame`].
#[derive(Debug)]
pub struct FrameSession {
    id: u64,
}

impl View for FrameSession {
    type V = u64;

    closed spec fn view(&self) -> u64 {
        self.id
    }
}

impl FrameSession {
    /// The session's id, for callers that need to name it.
    pub fn id(&self) -> (r: u64)
        ensures
            r == self@,
    {
        self.id
    }
}

/// Gates the begin/end frame protocol of the immediate-mode GUI context.
///
/// The GUI library's own widget state lives outside this crate; what is
/// modelled here is the part the bridge must get right: sessions are begun
/// and ended in strict alternation, a session that has ended can never be
/// used again, and each ended frame yields exactly one [`DrawSnapshot`].
pub struct GuiContext {
    live: Option<u64>,
    next_session: u64,
    frames: u64,
}

impl View for GuiContext {
    type V = GuiContextView;

    closed spec fn view(&self) -> GuiContextView {
        GuiContextView { live: self.live, next_session: self.next_session, frames: self.frames }
    }
}

impl GuiContext {
    /// A context with no live session and no completed frames.
    pub fn new() -> (r: GuiContext)
        ensures
            r@ == (GuiContextView { live: None, next_session: 1, frames: 0 }),
    {
        GuiContext { live: None, next_session: 1, frames: 0 }
    }

    /// Begins a frame and returns its session. Fails, changing nothing, if a
    /// session is already live: sessions never overlap.
    pub fn begin_frame(&mut self) -> (r: Result<FrameSession, UsageError>)
        requires
            old(self)@.next_session < u64::MAX,
        ensures
            old(self)@.live is None <==> r is Ok,
            r matches Ok(s) ==> s@ == old(self)@.next_session && final(self)@ == (GuiContextView {
                live: Some(old(self)@.next_session),
                next_session: (old(self)@.next_session + 1) as u64,
                frames: old(self)@.frames,
            }),
            r matches Err(e) ==> e == UsageError::SessionAlreadyLive && final(self)@ == old(
                self,
            )@,
    {
        match self.live {
            Some(_) => Err(UsageError::SessionAlreadyLive),
            None => {
                let id = self.next_session;
                self.next_session = id + 1;
                self.live = Some(id);
                Ok(FrameSession { id })
            },
        }
    }

    /// Ends the frame: consumes the session and seals the frame's draw
    /// commands into an immutable snapshot. Fails, changing nothing, unless
    /// the session is the one currently live. Whatever the outcome, the
    /// session handed in is not live afterwards.
    pub fn end_frame(&mut self, session: FrameSession, draws: Vec<DrawCmd>) -> (r: Result<
        DrawSnapshot,
        UsageError,
    >)
        requires
            old(self)@.frames < u64::MAX,
        ensures
            old(self)@.live == Some(session@) <==> r is Ok,
            r matches Ok(snap) ==> snap@ == (SnapshotView {
                frame: old(self)@.frames,
                draws: draws@,
            }) && final(self)@ == (GuiContextView {
                live: None,
                next_session: old(self)@.next_session,
                frames: (old(self)@.frames + 1) as u64,
            }),
            r is Err ==> final(self)@ == old(self)@,
            r matches Err(e) ==> e == (if old(self)@.live is None {
                UsageError::NoLiveSession
            } else {
                UsageError::SessionMismatch
            }),
            !session_live(final(self)@, session@),
    {
        match self.live {
            None => Err(UsageError::NoLiveSession),
            Some(live_id) => {
                if live_id == session.id {
                    self.live = None;
                    let f = self.frames;
                    self.frames = f + 1;
                    Ok(DrawSnapshot::new(f, draws))
                } else {
                    Err(UsageError::SessionMismatch)
                }
            },
        }
    }

    /// The id of the live session. Valid only between `begin_frame` and
    /// `end_frame`; outside that interval it fails rather than misbehave.
    pub fn ui_session(&self) -> (r: Result<u64, UsageError>)
        ensures
            self@.live is Some <==> r is Ok,
            r matches Ok(id) ==> self@.live == Some(id),
            r matches Err(e) ==> e == UsageError::NoLiveSession,
    {
        match self.live {
            Some(id) => Ok(id),
            None => Err(UsageError::NoLiveSession),
        }
    }

    /// Whether a frame is currently being built.
    pub fn is_frame_live(&self) -> (r: bool)
        ensures
            r == (self@.live is Some),
    {
        match self.live {
            Some(_) => true,
            None => false,
        }
    }

    /// The id the next session will be given.
    pub fn next_session_id(&self) -> (r: u64)
        ensures
            r == self@.next_session,
    {
        self.next_session
    }

    /// How many frames this context has completed.
    pub fn frames(&self) -> (r: u64)
        ensures
            r == self@.frames,
    {
        self.frames
    }
}

/// Law: at most one frame session is ever live. Two sessions that are both
/// live in the same context state are the same session; and ending a frame
/// always leaves the session that was handed in not live (an `ensures` of
/// [`GuiContext::end_frame`]).
pub proof fn lemma_at_most_one_live_session(c: GuiContextView, a: u64, b: u64)
    requires
        session_live(c, a),
        session_live(c, b),
    ensures
        a == b,
{
}

} // verus!
