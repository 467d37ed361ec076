//! Client runtime for Jupyter kernels: message model, wire framing for the
//! ZeroMQ and WebSocket transports, reply correlation, and the rules that
//! turn kernel traffic into events for a caller.

pub mod backend;
pub mod entity;
pub mod error;
pub mod octets;
pub mod text;

pub use error::Error;
