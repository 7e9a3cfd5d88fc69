//! A small concurrent-task demo core: a batch runner that turns simulated
//! task durations into completion messages, and an append-only store of
//! those messages that a rendering loop reads.

pub mod laws;
pub mod runner;
pub mod store;

pub use runner::{batch_messages, completion_message, draw_batch_durations, record_batch, BATCH_SIZE};
pub use store::ResultStore;
