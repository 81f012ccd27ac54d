//! The parts of the server around the HTTP vocabulary: framing, routing,
//! sessions and shared state.

pub mod config;
pub mod extract;
pub mod router;
pub mod session;
pub mod state;
pub mod stream_reader;
