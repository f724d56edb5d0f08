//! The write half: serializes frames into a buffer that the caller
//! drains to its stream, masking outgoing payloads when playing client.

use vstd::prelude::*;

use crate::error::WebSocketError;
use crate::frame::{masked_model, model_bytes, model_of, Frame, OpCode};
use crate::Role;

verus! {

/// The all-zero masking key, which a client never uses.
pub open spec fn zero_key() -> Seq<u8> {
    seq![0u8, 0u8, 0u8, 0u8]
}

/// Relies on rand::random: a fresh random value; nothing is assumed of
/// which value comes back.
#[verifier::external_body]
pub(crate) fn random_u32() -> u32 {
    rand::random()
}

/// A fresh 4-byte masking key, never all zero.
fn gen_mask_key() -> (k: [u8; 4])
    ensures
        k@.len() == 4,
        k@ != zero_key(),
{
    let r = random_u32();
    let mut b0: u8 = #[verifier::truncate] ((r >> 24) as u8);
    let b1: u8 = #[verifier::truncate] ((r >> 16) as u8);
    let b2: u8 = #[verifier::truncate] ((r >> 8) as u8);
    let b3: u8 = #[verifier::truncate] (r as u8);
    if b0 == 0 && b1 == 0 && b2 == 0 && b3 == 0 {
        b0 = 1;
    }
    let k: [u8; 4] = [b0, b1, b2, b3];
    proof {
        assert(k@[0] == b0 && k@[1] == b1 && k@[2] == b2 && k@[3] == b3);
        if b0 != 0 {
            assert(k@ != zero_key());
        } else {
            assert(b1 != 0 || b2 != 0 || b3 != 0);
            assert(k@ != zero_key());
        }
    }
    k
}

/// The buffer-driven write half of a connection.
pub struct WriteHalf {
    /// The side this half plays.
    pub role: Role,
    /// Latched once a close frame has been enqueued; afterwards every
    /// non-close send fails.
    pub closed: bool,
    /// Whether vectored writes may be used at all.
    pub vectored: bool,
    /// Mask outgoing payloads when acting as a client.
    pub auto_apply_mask: bool,
    /// Payload size above which a vectored write is preferred.
    pub writev_threshold: usize,
    /// Serialized frames not yet written to the stream.
    pub buffer: Vec<u8>,
}

/// Whether two write halves hold the same configuration.
pub open spec fn same_write_config(a: WriteHalf, b: WriteHalf) -> bool {
    &&& a.role == b.role
    &&& a.vectored == b.vectored
    &&& a.auto_apply_mask == b.auto_apply_mask
    &&& a.writev_threshold == b.writev_threshold
}

impl WriteHalf {
    /// A fresh write half for a stream that has completed its handshake:
    /// open, masking automatically, vectored writes permitted, and an
    /// empty buffer.
    pub fn after_handshake(role: Role) -> (r: WriteHalf)
        ensures
            r.role == role,
            !r.closed,
            r.vectored,
            r.auto_apply_mask,
            r.writev_threshold == 1024,
            r.buffer@ == Seq::<u8>::empty(),
    {
        WriteHalf {
            role,
            closed: false,
            vectored: true,
            auto_apply_mask: true,
            writev_threshold: 1024,
            buffer: Vec::with_capacity(1024),
        }
    }

    /// Serialize one frame into the write buffer without touching the
    /// stream. A client masks the frame under a fresh non-zero key
    /// first. Enqueueing a close frame latches the half closed; once it
    /// is closed, every non-close send fails and changes nothing.
    pub fn start_send_frame(&mut self, frame: Frame) -> (r: Result<(), WebSocketError>)
        ensures
            old(self).closed && frame.opcode != OpCode::Close ==> r == Result::<
                (),
                WebSocketError,
            >::Err(WebSocketError::ConnectionClosed) && *final(self) == *old(self),
            !(old(self).closed && frame.opcode != OpCode::Close) ==> {
                &&& r is Ok
                &&& same_write_config(*old(self), *final(self))
                &&& final(self).closed == (old(self).closed || frame.opcode == OpCode::Close)
                &&& if old(self).role == Role::Client && old(self).auto_apply_mask {
                    exists|k: Seq<u8>|
                        k.len() == 4 && k != zero_key() && final(self).buffer@ == old(self).buffer@
                            + model_bytes(#[trigger] masked_model(model_of(frame), k))
                } else {
                    final(self).buffer@ == old(self).buffer@ + model_bytes(model_of(frame))
                }
            },
    {
        let ghost m0 = model_of(frame);
        let mut frame = frame;
        let ghost mut key_seq: Seq<u8> = zero_key();
        let masks = matches!(self.role, Role::Client) && self.auto_apply_mask;
        if masks {
            let key = gen_mask_key();
            frame.apply_mask(key);
            proof {
                key_seq = key@;
            }
        }
        if matches!(frame.opcode, OpCode::Close) {
            self.closed = true;
        } else if self.closed {
            return Err(WebSocketError::ConnectionClosed);
        }
        frame.fmt(&mut self.buffer);
        proof {
            if masks {
                assert(model_of(frame) == masked_model(m0, key_seq));
            }
        }
        Ok(())
    }

    /// Drop the first `n` buffered bytes, after the stream has accepted
    /// them.
    pub fn advance(&mut self, n: usize)
        requires
            n <= old(self).buffer@.len(),
        ensures
            same_write_config(*old(self), *final(self)),
            final(self).closed == old(self).closed,
            final(self).buffer@ == old(self).buffer@.skip(n as int),
    {
        let len = self.buffer.len();
        let rest: Vec<u8> = vstd::slice::slice_to_vec(
            vstd::slice::slice_subrange(self.buffer.as_slice(), n, len),
        );
        self.buffer = rest;
        assert(self.buffer@ =~= old(self).buffer@.skip(n as int));
    }

    /// Whether a close frame has been enqueued on this half.
    pub fn is_closed(&self) -> (r: bool)
        ensures
            r == self.closed,
    {
        self.closed
    }

    /// Permit or forbid vectored writes.
    pub fn set_writev(&mut self, vectored: bool)
        ensures
            *final(self) == (WriteHalf { vectored, ..*old(self) }),
    {
        self.vectored = vectored;
    }

    /// Set the payload size above which a vectored write is preferred.
    pub fn set_writev_threshold(&mut self, threshold: usize)
        ensures
            *final(self) == (WriteHalf { writev_threshold: threshold, ..*old(self) }),
    {
        self.writev_threshold = threshold;
    }

    /// Switch client-side masking of outgoing payloads on or off.
    pub fn set_auto_apply_mask(&mut self, auto_apply_mask: bool)
        ensures
            *final(self) == (WriteHalf { auto_apply_mask, ..*old(self) }),
    {
        self.auto_apply_mask = auto_apply_mask;
    }
}

} // verus!
