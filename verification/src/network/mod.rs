//! The connections between nodes.

pub mod channel;
pub mod client;
pub mod correlation;
pub mod envelope;
pub mod error;
pub mod frame;
pub mod group_server;
pub mod inflight;
pub mod message_reader;
pub mod server;
