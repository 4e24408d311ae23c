//! A deterministic loop recorder for a frame-stepped, hot-swappable simulation.
//!
//! The recorder captures the per-frame input-event stream that a hosted
//! simulation consumes, together with a snapshot of the simulation's state
//! taken when recording begins, and replays that stream frame-exactly and
//! indefinitely against the restored snapshot.  The snapshot itself is opaque
//! to the recorder: the caller captures and restores it through whatever
//! state-continuity mechanism hosts the simulation, and the recorder only
//! stores it and says when it must be restored.

pub mod events;
pub mod frame_context;
pub mod loop_context;
pub mod orchestrator;
pub mod replay;
