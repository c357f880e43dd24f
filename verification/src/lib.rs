//! Core engine of a live-reloadable full-screen fragment-shader player.
//!
//! The crate holds the state-synchronization store that merges partial
//! external configuration updates, the playback clock with pause / resume /
//! speed semantics, the shader source pipeline that wraps user code and
//! gates recompilation, the graphics-context-loss recovery state machine,
//! and the per-frame orchestration that turns all of these into the seven
//! uniform values of a frame.
//!
//! Scalar quantities that the host exchanges as floating-point numbers are
//! carried here as fixed-point integers: times in microseconds, rates and
//! ratios in thousandths.  The host-facing shell converts at the boundary.

pub mod clock;
pub mod config;
pub mod engine;
pub mod recovery;
pub mod shader;
