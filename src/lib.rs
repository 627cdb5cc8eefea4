//! Supervision of a local backend process: orphan reaping by name, a bounded
//! spawn-and-probe start sequence, and a graceful-then-forced stop sequence.
//!
//! The decisions are made by a verified state machine; the caller performs each
//! requested action (spawning, signalling, probing, sleeping) and reports back
//! the outcome as an event.

pub mod policy;
pub mod reaper;
pub mod supervisor;
pub mod laws;
