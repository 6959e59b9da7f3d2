//! The handler core for an Engine-API fork-choice update: typed request and
//! response data, the orchestration decisions that classify the outcome of a
//! fork-choice application and drive synchronization or payload building, and
//! the payload gate with its derived payload identifier. The collaborators
//! that mutate chain storage, synchronize with peers, or execute payloads sit
//! outside this crate and feed their results in as plain values.

pub mod data;
pub mod error;
pub mod handler;
pub mod laws;
pub mod payload;
pub mod response;
pub mod sync;
