//! An explicitly owned trace context: spans, their lifecycle, and the
//! follows-from links between them.

pub mod context;
pub mod job;
pub mod laws;
pub mod model;
pub mod span;
pub mod span_id;
