//! A timed binary-pulse primitive: drive a signal line HIGH, hold it for a
//! requested duration, then drive it LOW, reporting exactly which send failed
//! when the consumer of the markers has gone away.
//!
//! The pulse itself is a small state machine. The surrounding runtime performs
//! each pending [`emitter::Action`] (a send or a timed wait) and reports the
//! outcome back as an [`emitter::Event`]; the machine decides everything else.
//! [`trace`] states and proves what any such run can deliver.

pub mod emitter;
pub mod trace;
