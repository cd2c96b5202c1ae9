//! Exactly-once-in-effect processing of object-store notifications: ordering
//! tokens per object, the lock protocol over a conditionally writable store,
//! and the task session that drives one notification to its outcome.
pub mod image_task;
pub mod lock;
pub mod s3_sequencer;
