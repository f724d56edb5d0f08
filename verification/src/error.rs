//! Errors surfaced by the framing engine.

use vstd::prelude::*;

verus! {

/// Everything that can go wrong while reading or writing frames.
///
/// Validity errors are terminal for the connection: the caller should
/// close the socket. The engine retries nothing internally.
#[derive(Clone, Copy, PartialEq, Eq, Structural, Debug)]
pub enum WebSocketError {
    /// The stream ended in the middle of a frame.
    UnexpectedEOF,
    /// The peer set an RSV bit although no extension was negotiated.
    ReservedBitsNotZero,
    /// The opcode nibble is not one of the six defined values.
    InvalidValue,
    /// A control frame arrived with its FIN bit clear.
    ControlFrameFragmented,
    /// A ping frame carried a payload longer than 125 bytes.
    PingFrameTooLarge,
    /// A frame or message exceeds the configured maximum size.
    FrameTooLarge,
    /// A close frame carried a single payload byte.
    InvalidCloseFrame,
    /// A close frame carried a code outside the allowed ranges.
    InvalidCloseCode,
    /// A text or close-reason payload is not valid UTF-8.
    InvalidUTF8,
    /// A continuation frame arrived outside an open message, or a
    /// non-continuation data frame arrived inside one.
    InvalidContinuationFrame,
    /// A write was attempted after a close frame was sent, or the
    /// stream accepted zero bytes.
    ConnectionClosed,
}

} // verus!
