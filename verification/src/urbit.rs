//! The upstream application host: what is sent to it and what it queues.

pub mod airlock;
pub mod types;
