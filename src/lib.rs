//! Real-time frame relay: a bounded relay queue between a decode task and a
//! playback callback, length-prefixed stream framing, and the decisions of the
//! capture and playback pipelines.
pub mod config;
pub mod error;
pub mod framing;
pub mod pipeline;
pub mod queue;
