//! Reflection accessors for protocol-buffer messages, together with the
//! workflow-step builders used to describe the project's CI jobs.

pub mod actions;
pub mod map;
pub mod projector;
pub mod repeated;
pub mod singular;
pub mod value;
pub mod workflow;
