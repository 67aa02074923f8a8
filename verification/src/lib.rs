//! Networking core of an S2C node: the client and server sides of the message
//! protocol as verified state machines, with the options, errors, retry policy
//! and framing that they share.

pub mod backoff;
pub mod config;
pub mod context;
pub mod error;
pub mod network;
pub mod proto;
pub mod registry;
pub mod text;
