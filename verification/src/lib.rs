//! Core logic of a GUI render bridge: the glue that carries an immediate-mode
//! GUI's per-frame output and its texture registrations from an update phase
//! into a GPU render phase.
//!
//! The library owns the three protocols that make the bridge safe:
//!
//! * the frame lifecycle ([`frame`]): at most one live frame session at a
//!   time, begun and ended in strict alternation, each ended frame yielding
//!   one immutable [`snapshot::DrawSnapshot`];
//! * the texture registration protocol ([`registry`]): opaque integer
//!   handles, allocated monotonically and never reused, with add/remove
//!   deltas that are drained exactly once per frame boundary;
//! * the render-target reconfiguration protocol ([`renderer`] and [`sync`]):
//!   the GPU renderer is keyed by pixel format and display scale, and a
//!   change of either forces a rebuild that discards and then repairs every
//!   non-font texture binding.
//!
//! Around them stand the fixed key table and input-forwarding rules
//! ([`input`]) and the display-scale policy that prescribes each rebuild's
//! font parameters ([`scale`]).
//!
//! The GUI library itself, the host engine, and the GPU are collaborators
//! behind this crate's boundary: they appear here only as plain values
//! (handles, image identifiers, format codes, fixed-point scale factors).

pub mod frame;
pub mod input;
pub mod registry;
pub mod renderer;
pub mod scale;
pub mod snapshot;
pub mod sync;
