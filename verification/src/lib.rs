//! Command protocol and transport framing for a line-oriented ASCII
//! signal-generator instrument link.
//!
//! The crate has two parts: a typed command model with a deterministic
//! encoding to the wire format, and an exchange engine that writes one
//! framed command to a transport and accumulates the framed response
//! under a deadline. Endpoint selection and the fixed port configuration
//! round them out; the serial transport itself is supplied by the caller.

pub mod command;
pub mod discovery;
pub mod exchange;
pub mod numfmt;
