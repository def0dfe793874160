//! Session lifecycle logic for a latency probe over a full-duplex message
//! transport: delay classification, the connector's retry policy, the
//! emitter, receiver and responder loops, and shutdown coordination.

pub mod address;
pub mod arrival;
pub mod connector;
pub mod emitter;
pub mod payload;
pub mod receiver;
pub mod responder;
pub mod session;
pub mod severity;
pub mod shutdown;
pub mod signal;
pub mod transport;
