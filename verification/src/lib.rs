//! A bridge from an asynchronous subscription to a frame-stepped caller.
//!
//! A background task forwards decoded records into an unbounded first-in
//! first-out channel; the caller, once per tick, drains up to a fixed number
//! of already-buffered records without ever blocking.

pub mod channel;
pub mod client;
pub mod context;
pub mod model;
pub mod task;
