//! Client runtime for an engine-management unit that speaks a small CBOR
//! message protocol over a datagram socket or a USB bulk endpoint.
//!
//! The crate holds the protocol's rules: the message model and its wire
//! schema, the session state machine that gates telemetry on the announced
//! column schema and serialises commands first in, first out, the decisions
//! of the transport loops, and the plan that a telemetry log follows. Sockets,
//! devices, threads and files belong to the program around it.

pub mod cbor;
pub mod codec;
pub mod connection;
pub mod interface;
pub mod log;
pub mod session;
