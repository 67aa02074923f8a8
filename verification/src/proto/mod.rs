//! The messages that nodes exchange.

pub mod io;
