//! A job queue kept in a key-value store.
//!
//! The library decides everything the queue does: which keys a queue uses,
//! what is written when a job is enqueued, how a stored job answers a status
//! or result request, and how a worker moves from one step to the next while
//! it processes a job. Talking to the store is left to the caller, who
//! performs the commands and actions the library hands out.

pub mod keys;
pub mod queue;
pub mod job;
pub mod errors;
pub mod worker;
pub mod laws;
