//! The duplex engine: one read half and one write half working
//! together, so that replies owed for pings and closes are enqueued on
//! the write side during reads.

use vstd::prelude::*;

use crate::error::WebSocketError;
use crate::frame::{frame_matches, masked_model, model_bytes, Frame, FrameModel, OpCode};
use crate::read::{parse, process, Parse, Processed, ReadHalf, ReadOutcome, same_read_config};
use crate::write::{same_write_config, zero_key, WriteHalf};
use crate::Role;

verus! {

/// What one step of the duplex engine yields.
#[derive(Debug)]
pub enum StepOutcome {
    /// The buffer does not yet hold a whole frame: read more bytes from
    /// the stream, feed them, and step again.
    NeedData,
    /// A frame was consumed internally and its reply sits in the write
    /// buffer: flush it, then step again.
    Consumed,
    /// A frame for the application; any reply owed for it already sits
    /// in the write buffer, so flush before acting on the frame.
    Output(Frame),
    /// The connection failed; a close reply may sit in the write buffer.
    Failed(WebSocketError),
}

/// How the write half changes when the engine enqueues a reply frame:
/// nothing changes without a reply or once the half is closed; otherwise
/// the serialized reply is appended (masked under some fresh non-zero
/// key when the client wrote it) and a close reply latches the half
/// closed.
pub open spec fn enqueue_effect(w0: WriteHalf, w1: WriteHalf, reply: Option<FrameModel>) -> bool {
    match reply {
        None => w1 == w0,
        Some(m) => if w0.closed {
            w1 == w0
        } else {
            send_effect(w0, w1, m)
        },
    }
}

/// How the write half changes when a frame is serialized into it: the
/// configuration stays, a close frame latches the half closed, and the
/// serialized frame is appended (masked under some fresh non-zero key
/// when a client wrote it).
pub open spec fn send_effect(w0: WriteHalf, w1: WriteHalf, m: FrameModel) -> bool {
    &&& same_write_config(w0, w1)
    &&& w1.closed == (w0.closed || m.opcode == OpCode::Close)
    &&& if w0.role == Role::Client && w0.auto_apply_mask {
        exists|k: Seq<u8>|
            k.len() == 4 && k != zero_key() && w1.buffer@ == w0.buffer@ + model_bytes(
                #[trigger] masked_model(m, k),
            )
    } else {
        w1.buffer@ == w0.buffer@ + model_bytes(m)
    }
}

/// A WebSocket connection engine over buffers: the caller shuttles
/// bytes between the two buffers and its stream.
pub struct WebSocket {
    /// The read half.
    pub read_half: ReadHalf,
    /// The write half.
    pub write_half: WriteHalf,
}

impl WebSocket {
    /// A fresh engine for a stream that has completed its handshake.
    pub fn after_handshake(role: Role) -> (r: WebSocket)
        ensures
            r.read_half.role == role,
            r.read_half.auto_apply_mask && r.read_half.auto_close && r.read_half.auto_pong,
            r.read_half.writev_threshold == 1024,
            r.read_half.max_message_size == 64 * 1024 * 1024,
            r.read_half.buffer@ == Seq::<u8>::empty(),
            r.write_half.role == role,
            !r.write_half.closed,
            r.write_half.vectored && r.write_half.auto_apply_mask,
            r.write_half.writev_threshold == 1024,
            r.write_half.buffer@ == Seq::<u8>::empty(),
    {
        WebSocket {
            read_half: ReadHalf::after_handshake(role),
            write_half: WriteHalf::after_handshake(role),
        }
    }

    /// Take the two halves apart, to be driven independently.
    pub fn split(self) -> (r: (ReadHalf, WriteHalf))
        ensures
            r.0 == self.read_half,
            r.1 == self.write_half,
    {
        (self.read_half, self.write_half)
    }

    /// One step of reading: parse a frame out of the read buffer, apply
    /// the read-side rules, enqueue any reply owed on the write half
    /// (unless it is already closed), and refuse to surface a non-close
    /// frame once a close has been sent.
    pub fn read_frame_step(&mut self) -> (r: StepOutcome)
        ensures
            same_read_config(old(self).read_half, final(self).read_half),
            match parse(
                old(self).read_half.buffer@,
                old(self).read_half.max_message_size as nat,
            ) {
                Parse::Incomplete => r is NeedData && final(self).read_half.buffer@ == old(
                    self,
                ).read_half.buffer@ && final(self).write_half == old(self).write_half,
                Parse::Bad(e) => r == StepOutcome::Failed(e) && final(self).read_half.buffer@
                    == old(self).read_half.buffer@ && final(self).write_half == old(
                    self,
                ).write_half,
                Parse::Parsed(m, n) => final(self).read_half.buffer@ == old(
                    self,
                ).read_half.buffer@.skip(n as int) && match process(old(self).read_half, m) {
                    Processed::Internal { reply } => r is Consumed && enqueue_effect(
                        old(self).write_half,
                        final(self).write_half,
                        Some(reply),
                    ),
                    Processed::Surface { frame, reply } => enqueue_effect(
                        old(self).write_half,
                        final(self).write_half,
                        reply,
                    ) && if old(self).write_half.closed && frame.opcode != OpCode::Close {
                        r == StepOutcome::Failed(WebSocketError::ConnectionClosed)
                    } else {
                        r matches StepOutcome::Output(f) && frame_matches(f, frame)
                    },
                    Processed::Rejected { error, reply } => r == StepOutcome::Failed(error)
                        && enqueue_effect(old(self).write_half, final(self).write_half, reply),
                },
            },
    {
        let was_closed = self.write_half.is_closed();
        match self.read_half.read_frame_inner() {
            ReadOutcome::NeedData => StepOutcome::NeedData,
            ReadOutcome::Consumed { reply } => {
                if !was_closed {
                    let sent = self.write_half.start_send_frame(reply);
                    assert(sent is Ok);
                }
                StepOutcome::Consumed
            },
            ReadOutcome::Output { frame, reply } => {
                match reply {
                    Some(rep) => {
                        if !was_closed {
                            let sent = self.write_half.start_send_frame(rep);
                            assert(sent is Ok);
                        }
                    },
                    None => {},
                }
                if was_closed && !matches!(frame.opcode, OpCode::Close) {
                    StepOutcome::Failed(WebSocketError::ConnectionClosed)
                } else {
                    StepOutcome::Output(frame)
                }
            },
            ReadOutcome::Failed { error, reply } => {
                match reply {
                    Some(rep) => {
                        if !was_closed {
                            let sent = self.write_half.start_send_frame(rep);
                            assert(sent is Ok);
                        }
                    },
                    None => {},
                }
                StepOutcome::Failed(error)
            },
        }
    }

    /// Serialize one application frame into the write buffer; see
    /// `WriteHalf::start_send_frame`.
    pub fn start_send_frame(&mut self, frame: Frame) -> (r: Result<(), WebSocketError>)
        ensures
            final(self).read_half == old(self).read_half,
            old(self).write_half.closed && frame.opcode != OpCode::Close ==> r == Result::<
                (),
                WebSocketError,
            >::Err(WebSocketError::ConnectionClosed) && *final(self) == *old(self),
            !(old(self).write_half.closed && frame.opcode != OpCode::Close) ==> r is Ok
                && send_effect(
                old(self).write_half,
                final(self).write_half,
                crate::frame::model_of(frame),
            ),
    {
        self.write_half.start_send_frame(frame)
    }

    /// Whether a close frame has been enqueued on the write half.
    pub fn is_closed(&self) -> (r: bool)
        ensures
            r == self.write_half.closed,
    {
        self.write_half.is_closed()
    }

    /// Append bytes read from the stream to the read buffer.
    pub fn feed(&mut self, data: &[u8])
        ensures
            final(self).read_half.buffer@ == old(self).read_half.buffer@ + data@,
            same_read_config(old(self).read_half, final(self).read_half),
            final(self).write_half == old(self).write_half,
    {
        self.read_half.feed(data);
    }

    /// Permit or forbid vectored writes.
    pub fn set_writev(&mut self, vectored: bool)
        ensures
            final(self).read_half == old(self).read_half,
            final(self).write_half == (WriteHalf { vectored, ..old(self).write_half }),
    {
        self.write_half.set_writev(vectored);
    }

    /// Set, on both halves, the payload size above which a vectored
    /// write is preferred.
    pub fn set_writev_threshold(&mut self, threshold: usize)
        ensures
            final(self).read_half == (ReadHalf {
                writev_threshold: threshold,
                ..old(self).read_half
            }),
            final(self).write_half == (WriteHalf {
                writev_threshold: threshold,
                ..old(self).write_half
            }),
    {
        self.read_half.set_writev_threshold(threshold);
        self.write_half.set_writev_threshold(threshold);
    }

    /// Make close frames be policed and echoed automatically, or hand
    /// them to the application raw.
    pub fn set_auto_close(&mut self, auto_close: bool)
        ensures
            final(self).read_half == (ReadHalf { auto_close, ..old(self).read_half }),
            final(self).write_half == old(self).write_half,
    {
        self.read_half.set_auto_close(auto_close);
    }

    /// Make pings be answered automatically, or hand them to the
    /// application raw.
    pub fn set_auto_pong(&mut self, auto_pong: bool)
        ensures
            final(self).read_half == (ReadHalf { auto_pong, ..old(self).read_half }),
            final(self).write_half == old(self).write_half,
    {
        self.read_half.set_auto_pong(auto_pong);
    }

    /// Set the size from which frames are rejected as too large.
    pub fn set_max_message_size(&mut self, max_message_size: usize)
        ensures
            final(self).read_half == (ReadHalf { max_message_size, ..old(self).read_half }),
            final(self).write_half == old(self).write_half,
    {
        self.read_half.set_max_message_size(max_message_size);
    }

    /// Switch automatic masking on or off, on both halves.
    pub fn set_auto_apply_mask(&mut self, auto_apply_mask: bool)
        ensures
            final(self).read_half == (ReadHalf { auto_apply_mask, ..old(self).read_half }),
            final(self).write_half == (WriteHalf { auto_apply_mask, ..old(self).write_half }),
    {
        self.read_half.set_auto_apply_mask(auto_apply_mask);
        self.write_half.set_auto_apply_mask(auto_apply_mask);
    }
}

/// A split pair of halves for a stream that has completed its
/// handshake, to be driven independently.
pub fn after_handshake_split(role: Role) -> (r: (ReadHalf, WriteHalf))
    ensures
        r.0.role == role,
        r.0.auto_apply_mask && r.0.auto_close && r.0.auto_pong,
        r.0.writev_threshold == 1024,
        r.0.max_message_size == 64 * 1024 * 1024,
        r.0.buffer@ == Seq::<u8>::empty(),
        r.1.role == role,
        !r.1.closed,
        r.1.vectored && r.1.auto_apply_mask,
        r.1.writev_threshold == 1024,
        r.1.buffer@ == Seq::<u8>::empty(),
{
    (ReadHalf::after_handshake(role), WriteHalf::after_handshake(role))
}

} // verus!
