//! Talking to Jupyter kernels, local or behind a server.
//!
//! Both kinds of kernel share one message model, so the wire protocol lives
//! outside either of them.

pub mod commands;
pub mod local;
pub mod notebook;
pub mod wire_protocol;
