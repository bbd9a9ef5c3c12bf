//! Verified core of a kymux media-packet relay: the 12-byte wire-header
//! codec, the presentation-timestamp pacer, the destination handshake state
//! machine, the relay loop state machine, and the destination-address parser.

pub mod addr;
pub mod bytes;
pub mod header;
pub mod hex;
pub mod pacer;
pub mod relay;
pub mod sink;
