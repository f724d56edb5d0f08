//! Core of a minimal WebSocket (RFC 6455) framing engine, verified with Verus.
//!
//! The library is sans-I/O: it parses frames out of a byte buffer that the
//! caller fills from its stream, and serializes frames into a byte buffer
//! that the caller drains to its stream.

use vstd::prelude::*;

pub mod close;
pub mod error;
pub mod fragment;
pub mod frame;
pub mod handshake;
pub mod mask;
pub mod read;
pub mod websocket;
pub mod write;

pub use close::CloseCode;
pub use error::WebSocketError;
pub use fragment::FragmentCollector;
pub use frame::Frame;
pub use frame::OpCode;
pub use mask::unmask;
pub use read::ReadHalf;
pub use read::ReadOutcome;
pub use websocket::after_handshake_split;
pub use websocket::StepOutcome;
pub use websocket::WebSocket;
pub use write::WriteHalf;

verus! {

/// The side of the connection an engine plays, fixed at handshake time.
/// It decides the masking direction: a client masks what it sends and a
/// server unmasks what it receives.
#[derive(Clone, Copy, PartialEq, Eq, Structural, Debug)]
pub enum Role {
    Server,
    Client,
}

} // verus!
