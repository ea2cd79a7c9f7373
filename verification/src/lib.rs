//! Core of a CAN-to-TCP bridge: a self-delimiting binary framing codec for
//! bus frames on a byte stream, and the decision logic of the bidirectional
//! pump that forwards frames between a bus socket and a TCP connection.

pub mod bytebuf;
pub mod codec;
pub mod frame;
pub mod session;
