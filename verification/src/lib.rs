//! A protocol engine that lets an application participate in a blockchain
//! consensus process over a length-prefixed request/response wire protocol.
//!
//! The crate provides the frame codec (a varint length prefix followed by a
//! tagged message body), the single-use kind-checked [`responder::Responder`]
//! completion handle, the protocol actor that owns the application instance,
//! and the per-connection state machine that enforces the one-request-in-flight
//! discipline and with it the per-connection response ordering.

pub mod channel;
pub mod codec;
pub mod connection;
pub mod message;
pub mod protocol;
pub mod responder;
pub mod types;
pub mod varint;
