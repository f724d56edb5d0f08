//! The read half: a restartable parser that turns buffered bytes into
//! frames and enforces the read-side validity rules.

use vstd::prelude::*;

use crate::close::{code_allowed, CloseCode};
use crate::error::WebSocketError;
use crate::frame::{
    be16_val, be64_val, frame_matches, is_control, mask_view, op_is_control, opcode_from_u8,
    opcode_of, opcode_value, opt_frame_matches, u16_be, utf8_is_valid, Frame, FrameModel, OpCode,
};
use crate::Role;
use crate::mask::masked_seq;
use vstd::utf8::valid_utf8;

verus! {

/// What one pass of the parser over a buffer yields.
pub enum Parse {
    /// The buffer does not yet hold a whole frame.
    Incomplete,
    /// The header violates the protocol.
    Bad(WebSocketError),
    /// A whole frame, and how many buffered bytes it spans.
    Parsed(FrameModel, nat),
}

/// The frame at the front of `b`, under the size limit `max`: the
/// parser's meaning as a function of the buffered bytes alone.
pub open spec fn parse(b: Seq<u8>, max: nat) -> Parse {
    if b.len() < 2 {
        Parse::Incomplete
    } else {
        let b0 = b[0];
        let b1 = b[1];
        if b0 & 0x70 != 0 {
            Parse::Bad(WebSocketError::ReservedBitsNotZero)
        } else {
            match opcode_of(b0 & 0x0f) {
                None => Parse::Bad(WebSocketError::InvalidValue),
                Some(op) => {
                    let fin = b0 & 0x80 != 0;
                    let is_masked = b1 & 0x80 != 0;
                    let lc = b1 & 0x7f;
                    let extra: nat = if lc == 126 {
                        2
                    } else if lc == 127 {
                        8
                    } else {
                        0
                    };
                    let header_size: nat = 2 + extra + (if is_masked {
                        4nat
                    } else {
                        0nat
                    });
                    if b.len() < header_size {
                        Parse::Incomplete
                    } else {
                        let plen: nat = if extra == 0 {
                            lc as nat
                        } else if extra == 2 {
                            be16_val(b[2], b[3]) as nat
                        } else {
                            be64_val(b.subrange(2, 10)) as nat
                        };
                        if plen > usize::MAX as nat {
                            Parse::Bad(WebSocketError::FrameTooLarge)
                        } else {
                            let mask = if is_masked {
                                Some(b.subrange(2 + extra as int, 2 + extra as int + 4))
                            } else {
                                None
                            };
                            if op_is_control(op) && !fin {
                                Parse::Bad(WebSocketError::ControlFrameFragmented)
                            } else if op == OpCode::Ping && plen > 125 {
                                Parse::Bad(WebSocketError::PingFrameTooLarge)
                            } else if plen >= max {
                                Parse::Bad(WebSocketError::FrameTooLarge)
                            } else if b.len() < header_size + plen {
                                Parse::Incomplete
                            } else {
                                Parse::Parsed(
                                    FrameModel {
                                        fin,
                                        opcode: op,
                                        mask,
                                        payload: b.subrange(
                                            header_size as int,
                                            header_size + plen as int,
                                        ),
                                    },
                                    header_size + plen,
                                )
                            }
                        }
                    }
                }
            }
        }
    }
}

/// An unmasked pong frame, for specification.
pub open spec fn pong_model(payload: Seq<u8>) -> FrameModel {
    FrameModel { fin: true, opcode: OpCode::Pong, mask: None, payload }
}

/// An unmasked close frame with a verbatim payload, for specification.
pub open spec fn close_model(payload: Seq<u8>) -> FrameModel {
    FrameModel { fin: true, opcode: OpCode::Close, mask: None, payload }
}

/// The frame after the server-side unmasking step: when the role is
/// server, automatic unmasking is on and a mask is present, the payload
/// is unmasked and the mask cleared; otherwise the frame is untouched.
pub open spec fn unmask_model(m: FrameModel, role: Role, auto_apply_mask: bool) -> FrameModel {
    match m.mask {
        Some(k) if role == Role::Server && auto_apply_mask => FrameModel {
            fin: m.fin,
            opcode: m.opcode,
            mask: None,
            payload: masked_seq(m.payload, k),
        },
        _ => m,
    }
}

/// What the engine does with one parsed frame, for specification.
pub enum Processed {
    /// Hand the frame to the application, with a reply the caller is
    /// obligated to send first.
    Surface { frame: FrameModel, reply: Option<FrameModel> },
    /// The frame was consumed internally; send the reply and read again.
    Internal { reply: FrameModel },
    /// The frame violates the protocol; a reply may still be owed.
    Rejected { error: WebSocketError, reply: Option<FrameModel> },
}

/// The read-side rules applied to one parsed frame: server-side
/// unmasking, close policing and echo, automatic pong, and UTF-8
/// checking of final text frames.
pub open spec fn process(rh: ReadHalf, m0: FrameModel) -> Processed {
    let m = unmask_model(m0, rh.role, rh.auto_apply_mask);
    match m.opcode {
        OpCode::Close => if rh.auto_close {
            if m.payload.len() == 0 {
                Processed::Surface { frame: m, reply: Some(close_model(m.payload)) }
            } else if m.payload.len() == 1 {
                Processed::Rejected { error: WebSocketError::InvalidCloseFrame, reply: None }
            } else {
                let code = be16_val(m.payload[0], m.payload[1]);
                if !valid_utf8(m.payload.skip(2)) {
                    Processed::Rejected { error: WebSocketError::InvalidUTF8, reply: None }
                } else if !code_allowed(code) {
                    Processed::Rejected {
                        error: WebSocketError::InvalidCloseCode,
                        reply: Some(close_model(u16_be(1002) + m.payload.skip(2))),
                    }
                } else {
                    Processed::Surface { frame: m, reply: Some(close_model(m.payload)) }
                }
            }
        } else {
            Processed::Surface { frame: m, reply: None }
        },
        OpCode::Ping => if rh.auto_pong {
            Processed::Internal { reply: pong_model(m.payload) }
        } else {
            Processed::Surface { frame: m, reply: None }
        },
        OpCode::Text => if m.fin && !valid_utf8(m.payload) {
            Processed::Rejected { error: WebSocketError::InvalidUTF8, reply: None }
        } else {
            Processed::Surface { frame: m, reply: None }
        },
        _ => Processed::Surface { frame: m, reply: None },
    }
}

/// What one call of `read_frame_inner` yields.
#[derive(Debug)]
pub enum ReadOutcome {
    /// The buffer does not yet hold a whole frame: read more bytes from
    /// the stream, feed them, and call again.
    NeedData,
    /// A frame was consumed internally; the caller is obligated to send
    /// the reply, then call again.
    Consumed { reply: Frame },
    /// A frame for the application; when a reply is attached, the caller
    /// is obligated to send it before surfacing the frame.
    Output { frame: Frame, reply: Option<Frame> },
    /// The peer violated the protocol; when a reply is attached, it is
    /// the close frame owed to the peer.
    Failed { error: WebSocketError, reply: Option<Frame> },
}

/// The buffer-driven read half of a connection.
pub struct ReadHalf {
    /// The side this half plays.
    pub role: Role,
    /// Unmask incoming payloads when acting as a server.
    pub auto_apply_mask: bool,
    /// Police close frames and echo them automatically.
    pub auto_close: bool,
    /// Answer pings with pongs automatically.
    pub auto_pong: bool,
    /// Payload size above which a vectored write is preferred.
    pub writev_threshold: usize,
    /// Frames of this size or more are rejected.
    pub max_message_size: usize,
    /// Bytes read off the stream and not yet consumed.
    pub buffer: Vec<u8>,
}

/// Whether two read halves hold the same configuration.
pub open spec fn same_read_config(a: ReadHalf, b: ReadHalf) -> bool {
    &&& a.role == b.role
    &&& a.auto_apply_mask == b.auto_apply_mask
    &&& a.auto_close == b.auto_close
    &&& a.auto_pong == b.auto_pong
    &&& a.writev_threshold == b.writev_threshold
    &&& a.max_message_size == b.max_message_size
}

impl ReadHalf {
    /// A fresh read half for a stream that has completed its handshake:
    /// all automatic behaviours on, a 64 MiB size limit, and an empty
    /// buffer.
    pub fn after_handshake(role: Role) -> (r: ReadHalf)
        ensures
            r.role == role,
            r.auto_apply_mask,
            r.auto_close,
            r.auto_pong,
            r.writev_threshold == 1024,
            r.max_message_size == 64 * 1024 * 1024,
            r.buffer@ == Seq::<u8>::empty(),
    {
        ReadHalf {
            role,
            auto_apply_mask: true,
            auto_close: true,
            auto_pong: true,
            writev_threshold: 1024,
            max_message_size: 64 * 1024 * 1024,
            buffer: Vec::with_capacity(8192),
        }
    }

    /// Append bytes read from the stream to the buffer.
    pub fn feed(&mut self, data: &[u8])
        ensures
            final(self).buffer@ == old(self).buffer@ + data@,
            same_read_config(*old(self), *final(self)),
    {
        let n = data.len();
        let mut i: usize = 0;
        while i < n
            invariant
                n == data@.len(),
                i <= n,
                self.buffer@ == old(self).buffer@ + data@.take(i as int),
                same_read_config(*old(self), *self),
            decreases n - i,
        {
            let b = *vstd::slice::slice_index_get(data, i);
            self.buffer.push(b);
            assert(self.buffer@ =~= old(self).buffer@ + data@.take(i + 1 as int));
            i = i + 1;
        }
        assert(self.buffer@ =~= old(self).buffer@ + data@);
    }

    /// Try to take one whole frame off the front of the buffer. `None`
    /// asks the caller for more bytes; a parsed frame leaves only the
    /// bytes after it in the buffer.
    pub fn parse_frame_header(&mut self) -> (r: Option<Result<Frame, WebSocketError>>)
        ensures
            same_read_config(*old(self), *final(self)),
            match parse(old(self).buffer@, old(self).max_message_size as nat) {
                Parse::Incomplete => r is None && final(self).buffer@ == old(self).buffer@,
                Parse::Bad(e) => r == Some(Result::<Frame, WebSocketError>::Err(e))
                    && final(self).buffer@ == old(self).buffer@,
                Parse::Parsed(m, n) => (r matches Some(Ok(f)) && frame_matches(f, m))
                    && final(self).buffer@ == old(self).buffer@.skip(n as int),
            },
    {
        let buffer_len = self.buffer.len();
        if buffer_len < 2 {
            return None;
        }
        let b0 = self.buffer[0];
        let b1 = self.buffer[1];
        if b0 & 0x70 != 0 {
            return Some(Err(WebSocketError::ReservedBitsNotZero));
        }
        let op = match opcode_from_u8(b0 & 0x0f) {
            Ok(op) => op,
            Err(e) => {
                return Some(Err(e));
            },
        };
        let fin = b0 & 0x80 != 0;
        let is_masked = b1 & 0x80 != 0;
        let lc = b1 & 0x7f;
        let extra: usize = if lc == 126 {
            2
        } else if lc == 127 {
            8
        } else {
            0
        };
        let header_size: usize = 2 + extra + (if is_masked {
            4
        } else {
            0
        });
        if buffer_len < header_size {
            return None;
        }
        let plen64: u64 = if extra == 0 {
            lc as u64
        } else if extra == 2 {
            (((self.buffer[2] as u16) << 8) | (self.buffer[3] as u16)) as u64
        } else {
            let ghost bs = self.buffer@.subrange(2, 10);
            let v: u64 = ((self.buffer[2] as u64) << 56) | ((self.buffer[3] as u64) << 48)
                | ((self.buffer[4] as u64) << 40) | ((self.buffer[5] as u64) << 32)
                | ((self.buffer[6] as u64) << 24) | ((self.buffer[7] as u64) << 16)
                | ((self.buffer[8] as u64) << 8) | (self.buffer[9] as u64);
            assert(bs[0] == self.buffer@[2] && bs[1] == self.buffer@[3] && bs[2] == self.buffer@[4]
                && bs[3] == self.buffer@[5] && bs[4] == self.buffer@[6] && bs[5] == self.buffer@[7]
                && bs[6] == self.buffer@[8] && bs[7] == self.buffer@[9]);
            v
        };
        if plen64 > usize::MAX as u64 {
            return Some(Err(WebSocketError::FrameTooLarge));
        }
        let payload_len: usize = plen64 as usize;
        let mask: Option<[u8; 4]> = if is_masked {
            let o = 2 + extra;
            let k: [u8; 4] = [self.buffer[o], self.buffer[o + 1], self.buffer[o + 2], self.buffer[o
                + 3]];
            proof {
                let km = self.buffer@.subrange(o as int, o + 4 as int);
                assert(k@ =~= km);
            }
            Some(k)
        } else {
            None
        };
        if is_control(op) && !fin {
            return Some(Err(WebSocketError::ControlFrameFragmented));
        }
        if matches!(op, OpCode::Ping) && payload_len > 125 {
            return Some(Err(WebSocketError::PingFrameTooLarge));
        }
        if payload_len >= self.max_message_size {
            return Some(Err(WebSocketError::FrameTooLarge));
        }
        if buffer_len - header_size < payload_len {
            return None;
        }
        let total = header_size + payload_len;
        let payload: Vec<u8> = vstd::slice::slice_to_vec(
            vstd::slice::slice_subrange(self.buffer.as_slice(), header_size, total),
        );
        let rest: Vec<u8> = vstd::slice::slice_to_vec(
            vstd::slice::slice_subrange(self.buffer.as_slice(), total, buffer_len),
        );
        self.buffer = rest;
        assert(self.buffer@ =~= old(self).buffer@.skip(total as int));
        Some(Ok(Frame::new(fin, op, mask, payload)))
    }

    /// Read one frame's worth of progress out of the buffer: parse a
    /// frame and apply the read-side rules to it. The caller is
    /// obligated to send any attached reply on the paired write half,
    /// unless that half is already closed.
    pub fn read_frame_inner(&mut self) -> (r: ReadOutcome)
        ensures
            same_read_config(*old(self), *final(self)),
            match parse(old(self).buffer@, old(self).max_message_size as nat) {
                Parse::Incomplete => r is NeedData && final(self).buffer@ == old(self).buffer@,
                Parse::Bad(e) => (r matches ReadOutcome::Failed { error, reply } && error == e
                    && reply is None) && final(self).buffer@ == old(self).buffer@,
                Parse::Parsed(m, n) => final(self).buffer@ == old(self).buffer@.skip(n as int)
                    && match process(*old(self), m) {
                    Processed::Surface { frame, reply } => r matches ReadOutcome::Output {
                        frame: f,
                        reply: rep,
                    } && frame_matches(f, frame) && opt_frame_matches(rep, reply),
                    Processed::Internal { reply } => r matches ReadOutcome::Consumed { reply: rep }
                        && frame_matches(rep, reply),
                    Processed::Rejected { error, reply } => r matches ReadOutcome::Failed {
                        error: e,
                        reply: rep,
                    } && e == error && opt_frame_matches(rep, reply),
                },
            },
    {
        let mut frame = match self.parse_frame_header() {
            None => {
                return ReadOutcome::NeedData;
            },
            Some(Err(e)) => {
                return ReadOutcome::Failed { error: e, reply: None };
            },
            Some(Ok(frame)) => frame,
        };
        if matches!(self.role, Role::Server) && self.auto_apply_mask {
            frame.unmask();
        }
        match frame.opcode {
            OpCode::Close if self.auto_close => {
                let plen = frame.payload.len();
                if plen == 0 {
                    let echo = Frame::close_raw(
                        vstd::slice::slice_to_vec(frame.payload.as_slice()),
                    );
                    ReadOutcome::Output { frame, reply: Some(echo) }
                } else if plen == 1 {
                    ReadOutcome::Failed { error: WebSocketError::InvalidCloseFrame, reply: None }
                } else {
                    let code: u16 = ((frame.payload[0] as u16) << 8) | (frame.payload[1] as u16);
                    let reason_ok = utf8_is_valid(
                        vstd::slice::slice_subrange(frame.payload.as_slice(), 2, plen),
                    );
                    assert(frame.payload@.subrange(2, plen as int) =~= frame.payload@.skip(2));
                    if !reason_ok {
                        ReadOutcome::Failed { error: WebSocketError::InvalidUTF8, reply: None }
                    } else {
                        let cc = CloseCode::from(code);
                        if !cc.is_allowed() {
                            proof {
                                crate::close::lemma_classify_allowed(code);
                            }
                            let reply = Frame::close(
                                1002,
                                vstd::slice::slice_subrange(frame.payload.as_slice(), 2, plen),
                            );
                            ReadOutcome::Failed {
                                error: WebSocketError::InvalidCloseCode,
                                reply: Some(reply),
                            }
                        } else {
                            proof {
                                crate::close::lemma_classify_allowed(code);
                            }
                            let echo = Frame::close_raw(
                                vstd::slice::slice_to_vec(frame.payload.as_slice()),
                            );
                            ReadOutcome::Output { frame, reply: Some(echo) }
                        }
                    }
                }
            },
            OpCode::Ping if self.auto_pong => {
                ReadOutcome::Consumed { reply: Frame::pong(frame.payload) }
            },
            OpCode::Text => {
                if frame.fin && !frame.is_utf8() {
                    ReadOutcome::Failed { error: WebSocketError::InvalidUTF8, reply: None }
                } else {
                    ReadOutcome::Output { frame, reply: None }
                }
            },
            _ => ReadOutcome::Output { frame, reply: None },
        }
    }

    /// Make close frames be policed and echoed automatically, or hand
    /// them to the application raw.
    pub fn set_auto_close(&mut self, auto_close: bool)
        ensures
            *final(self) == (ReadHalf { auto_close, ..*old(self) }),
    {
        self.auto_close = auto_close;
    }

    /// Make pings be answered automatically, or hand them to the
    /// application raw.
    pub fn set_auto_pong(&mut self, auto_pong: bool)
        ensures
            *final(self) == (ReadHalf { auto_pong, ..*old(self) }),
    {
        self.auto_pong = auto_pong;
    }

    /// Set the size from which frames are rejected as too large.
    pub fn set_max_message_size(&mut self, max_message_size: usize)
        ensures
            *final(self) == (ReadHalf { max_message_size, ..*old(self) }),
    {
        self.max_message_size = max_message_size;
    }

    /// Switch server-side unmasking of incoming payloads on or off.
    pub fn set_auto_apply_mask(&mut self, auto_apply_mask: bool)
        ensures
            *final(self) == (ReadHalf { auto_apply_mask, ..*old(self) }),
    {
        self.auto_apply_mask = auto_apply_mask;
    }

    /// Set the payload size above which a vectored write is preferred.
    pub fn set_writev_threshold(&mut self, threshold: usize)
        ensures
            *final(self) == (ReadHalf { writev_threshold: threshold, ..*old(self) }),
    {
        self.writev_threshold = threshold;
    }
}


/// A frame model that can stand on the wire under the size limit
/// `max`: a 4-byte mask when masked, FIN set on control frames, ping
/// payloads of at most 125 bytes, and a payload under both the limit
/// and the machine word.
pub open spec fn wire_ok(m: FrameModel, max: nat) -> bool {
    &&& match m.mask {
        Some(k) => k.len() == 4,
        None => true,
    }
    &&& (op_is_control(m.opcode) ==> m.fin)
    &&& (m.opcode == OpCode::Ping ==> m.payload.len() <= 125)
    &&& m.payload.len() < max
    &&& m.payload.len() <= usize::MAX as nat
}

/// The opcode values round-trip.
proof fn lemma_opcode_roundtrip(op: OpCode)
    ensures
        opcode_of(opcode_value(op)) == Some(op),
{
}

/// The first header byte of a serialized frame decodes to its FIN bit
/// and opcode, with the RSV bits clear.
proof fn lemma_head_byte0(fin: bool, op: OpCode)
    ensures
        ({
            let b0 = (if fin { 0x80u8 } else { 0u8 }) | opcode_value(op);
            &&& b0 & 0x70 == 0
            &&& b0 & 0x0f == opcode_value(op)
            &&& (b0 & 0x80 != 0) == fin
        }),
{
    let opv = opcode_value(op);
    assert(opv == 0 || opv == 1 || opv == 2 || opv == 8 || opv == 9 || opv == 10);
    if fin {
        assert((0x80u8 | opv) & 0x70 == 0 && (0x80u8 | opv) & 0x0f == opv && ((0x80u8 | opv) & 0x80
            != 0)) by (bit_vector)
            requires
                opv == 0 || opv == 1 || opv == 2 || opv == 8 || opv == 9 || opv == 10,
        ;
    } else {
        assert((0u8 | opv) & 0x70 == 0 && (0u8 | opv) & 0x0f == opv && ((0u8 | opv) & 0x80 == 0))
            by (bit_vector)
            requires
                opv == 0 || opv == 1 || opv == 2 || opv == 8 || opv == 9 || opv == 10,
        ;
    }
}

/// The second header byte of a serialized frame decodes to its mask bit
/// and length code.
proof fn lemma_head_byte1(has_mask: bool, lc: u8)
    requires
        lc <= 127,
    ensures
        ({
            let b1 = (if has_mask { 0x80u8 } else { 0u8 }) | lc;
            &&& b1 & 0x7f == lc
            &&& (b1 & 0x80 != 0) == has_mask
        }),
{
    if has_mask {
        assert((0x80u8 | lc) & 0x7f == lc && ((0x80u8 | lc) & 0x80 != 0)) by (bit_vector)
            requires
                lc <= 127,
        ;
    } else {
        assert((0u8 | lc) & 0x7f == lc && ((0u8 | lc) & 0x80 == 0)) by (bit_vector)
            requires
                lc <= 127,
        ;
    }
}

/// Serializing a frame and parsing the bytes back, with anything at all
/// after them, yields exactly that frame and consumes exactly its
/// bytes: the header round-trips.
pub proof fn lemma_parse_roundtrip(m: FrameModel, rest: Seq<u8>, max: nat)
    requires
        wire_ok(m, max),
    ensures
        parse(crate::frame::model_bytes(m) + rest, max) == Parse::Parsed(
            m,
            crate::frame::model_bytes(m).len() as nat,
        ),
{
    let plen = m.payload.len();
    let h = crate::frame::head_bytes(m.fin, m.opcode, m.mask, plen);
    let bytes = crate::frame::model_bytes(m) + rest;
    let opv = opcode_value(m.opcode);
    let b0 = (if m.fin { 0x80u8 } else { 0u8 }) | opv;
    let has_mask = m.mask is Some;
    let mbit = if has_mask { 0x80u8 } else { 0u8 };
    let mask_bytes = match m.mask {
        Some(k) => k,
        None => Seq::<u8>::empty(),
    };
    let mask_len: nat = if has_mask { 4nat } else { 0nat };
    lemma_head_byte0(m.fin, m.opcode);
    lemma_opcode_roundtrip(m.opcode);
    if plen <= 125 {
        let lc = plen as u8;
        assert(h =~= seq![b0, mbit | lc] + mask_bytes);
        lemma_head_byte1(has_mask, lc);
        let hs: nat = 2 + mask_len;
        assert(h.len() == hs);
        assert(bytes[0] == b0 && bytes[1] == (mbit | lc));
        if has_mask {
            assert(bytes.subrange(2int, 6int) =~= mask_bytes);
        }
        assert(bytes.subrange(hs as int, (hs + plen) as int) =~= m.payload);
        assert(parse(bytes, max) == Parse::Parsed(m, hs + plen));
    } else if plen <= 0xFFFF {
        let v = plen as u16;
        assert(h =~= seq![b0, mbit | 126u8] + crate::frame::u16_be(v) + mask_bytes);
        lemma_head_byte1(has_mask, 126u8);
        crate::frame::lemma_u16_be_roundtrip(v);
        let hs: nat = 4 + mask_len;
        assert(h.len() == hs);
        assert(bytes[0] == b0 && bytes[1] == (mbit | 126u8));
        assert(bytes[2] == crate::frame::u16_be(v)[0] && bytes[3] == crate::frame::u16_be(v)[1]);
        assert(be16_val(bytes[2], bytes[3]) == v);
        if has_mask {
            assert(bytes.subrange(4int, 8int) =~= mask_bytes);
        }
        assert(bytes.subrange(hs as int, (hs + plen) as int) =~= m.payload);
        assert(parse(bytes, max) == Parse::Parsed(m, hs + plen));
    } else {
        let v = plen as u64;
        assert(h =~= seq![b0, mbit | 127u8] + crate::frame::u64_be(v) + mask_bytes);
        lemma_head_byte1(has_mask, 127u8);
        crate::frame::lemma_u64_be_roundtrip(v);
        let hs: nat = 10 + mask_len;
        assert(h.len() == hs);
        assert(bytes[0] == b0 && bytes[1] == (mbit | 127u8));
        assert(bytes.subrange(2int, 10int) =~= crate::frame::u64_be(v));
        assert(be64_val(bytes.subrange(2int, 10int)) == v);
        if has_mask {
            assert(bytes.subrange(10int, 14int) =~= mask_bytes);
        }
        assert(bytes.subrange(hs as int, (hs + plen) as int) =~= m.payload);
        assert(parse(bytes, max) == Parse::Parsed(m, hs + plen));
    }
}

/// On any strict prefix of a serialized frame the parser only asks for
/// more bytes: short reads cause no spurious error and no spurious
/// frame.
pub proof fn lemma_parse_prefix_incomplete(m: FrameModel, n: int, max: nat)
    requires
        wire_ok(m, max),
        0 <= n < crate::frame::model_bytes(m).len(),
    ensures
        parse(crate::frame::model_bytes(m).take(n), max) == Parse::Incomplete,
{
    let plen = m.payload.len();
    let h = crate::frame::head_bytes(m.fin, m.opcode, m.mask, plen);
    let full = crate::frame::model_bytes(m);
    let bytes = full.take(n);
    let opv = opcode_value(m.opcode);
    let b0 = (if m.fin { 0x80u8 } else { 0u8 }) | opv;
    let has_mask = m.mask is Some;
    let mbit = if has_mask { 0x80u8 } else { 0u8 };
    let mask_bytes = match m.mask {
        Some(k) => k,
        None => Seq::<u8>::empty(),
    };
    let mask_len: nat = if has_mask { 4nat } else { 0nat };
    if n < 2 {
        assert(parse(bytes, max) == Parse::Incomplete);
    } else {
        lemma_head_byte0(m.fin, m.opcode);
        lemma_opcode_roundtrip(m.opcode);
        if plen <= 125 {
            let lc = plen as u8;
            assert(h =~= seq![b0, mbit | lc] + mask_bytes);
            lemma_head_byte1(has_mask, lc);
            let hs: nat = 2 + mask_len;
            assert(bytes[0] == b0 && bytes[1] == (mbit | lc));
            if n < hs {
                assert(parse(bytes, max) == Parse::Incomplete);
            } else {
                assert(bytes.len() < hs + plen);
                assert(parse(bytes, max) == Parse::Incomplete);
            }
        } else if plen <= 0xFFFF {
            let v = plen as u16;
            assert(h =~= seq![b0, mbit | 126u8] + crate::frame::u16_be(v) + mask_bytes);
            lemma_head_byte1(has_mask, 126u8);
            let hs: nat = 4 + mask_len;
            assert(bytes[0] == b0 && bytes[1] == (mbit | 126u8));
            if n < hs {
                assert(parse(bytes, max) == Parse::Incomplete);
            } else {
                crate::frame::lemma_u16_be_roundtrip(v);
                assert(bytes[2] == crate::frame::u16_be(v)[0] && bytes[3] == crate::frame::u16_be(
                    v,
                )[1]);
                assert(be16_val(bytes[2], bytes[3]) == v);
                assert(bytes.len() < hs + plen);
                assert(parse(bytes, max) == Parse::Incomplete);
            }
        } else {
            let v = plen as u64;
            assert(h =~= seq![b0, mbit | 127u8] + crate::frame::u64_be(v) + mask_bytes);
            lemma_head_byte1(has_mask, 127u8);
            let hs: nat = 10 + mask_len;
            assert(bytes[0] == b0 && bytes[1] == (mbit | 127u8));
            if n < hs {
                assert(parse(bytes, max) == Parse::Incomplete);
            } else {
                crate::frame::lemma_u64_be_roundtrip(v);
                assert(bytes.subrange(2int, 10int) =~= crate::frame::u64_be(v));
                assert(be64_val(bytes.subrange(2int, 10int)) == v);
                assert(bytes.len() < hs + plen);
                assert(parse(bytes, max) == Parse::Incomplete);
            }
        }
    }
}

/// Any buffer whose first byte has an RSV bit set is rejected as soon
/// as the two probe bytes are there, whatever follows.
pub proof fn lemma_rsv_rejected(b: Seq<u8>, max: nat)
    requires
        b.len() >= 2,
        b[0] & 0x70 != 0,
    ensures
        parse(b, max) == Parse::Bad(WebSocketError::ReservedBitsNotZero),
{
}


/// The size in bytes of the header announced by a buffer's first two
/// bytes: the two probe bytes, any extended length, and the mask.
pub open spec fn header_size_of(b: Seq<u8>) -> nat
    recommends
        b.len() >= 2,
{
    let lc = b[1] & 0x7f;
    let extra: nat = if lc == 126 {
        2
    } else if lc == 127 {
        8
    } else {
        0
    };
    2 + extra + (if b[1] & 0x80 != 0 {
        4nat
    } else {
        0nat
    })
}

/// The payload length announced by a buffer's header.
pub open spec fn payload_len_of(b: Seq<u8>) -> nat
    recommends
        b.len() >= header_size_of(b),
{
    let lc = b[1] & 0x7f;
    if lc == 126 {
        be16_val(b[2], b[3]) as nat
    } else if lc == 127 {
        be64_val(b.subrange(2, 10)) as nat
    } else {
        lc as nat
    }
}

/// Any buffer announcing a control frame with its FIN bit clear is
/// rejected once its header is complete, whatever the payload.
pub proof fn lemma_control_fragment_rejected(b: Seq<u8>, max: nat, op: OpCode)
    requires
        b.len() >= 2,
        b[0] & 0x70 == 0,
        opcode_of(b[0] & 0x0f) == Some(op),
        op_is_control(op),
        b[0] & 0x80 == 0,
        b.len() >= header_size_of(b),
        payload_len_of(b) <= usize::MAX as nat,
    ensures
        parse(b, max) == Parse::Bad(WebSocketError::ControlFrameFragmented),
{
}

/// The codes at which an incoming close frame is refused: everything
/// below 1000, the three reserved codes, the span between the defined
/// and the registered ranges, and everything from 5000 up.
pub proof fn lemma_close_code_ranges(v: u16)
    ensures
        !code_allowed(v) <==> (v <= 999 || v == 1004 || v == 1005 || v == 1006 || (1012 <= v && v
            <= 2999) || v >= 5000),
{
}

/// An incoming close frame carrying a refused code is rejected as
/// `InvalidCloseCode`, and the reply owed to the peer is a close frame
/// with code 1002 and the peer's own reason.
pub proof fn lemma_close_policing(rh: ReadHalf, m: FrameModel)
    requires
        rh.auto_close,
        m.opcode == OpCode::Close,
        m.mask is None,
        m.payload.len() >= 2,
        valid_utf8(m.payload.skip(2)),
        !code_allowed(be16_val(m.payload[0], m.payload[1])),
    ensures
        process(rh, m) == (Processed::Rejected {
            error: WebSocketError::InvalidCloseCode,
            reply: Some(close_model(u16_be(1002) + m.payload.skip(2))),
        }),
{
}

/// Any incoming ping obligates a pong carrying the identical payload
/// when pings are answered automatically.
pub proof fn lemma_auto_pong(rh: ReadHalf, m: FrameModel)
    requires
        rh.auto_pong,
        m.opcode == OpCode::Ping,
        m.mask is None,
    ensures
        process(rh, m) == (Processed::Internal { reply: pong_model(m.payload) }),
{
}

/// A final text frame whose payload is not valid UTF-8 is rejected as
/// `InvalidUTF8`.
pub proof fn lemma_text_utf8_rejected(rh: ReadHalf, m: FrameModel)
    requires
        m.opcode == OpCode::Text,
        m.fin,
        m.mask is None,
        !valid_utf8(m.payload),
    ensures
        process(rh, m) == (Processed::Rejected { error: WebSocketError::InvalidUTF8, reply: None }),
{
}

/// The second byte of a serialized frame carries the mask bit exactly
/// when the frame is masked: a client-masked frame always goes out with
/// the bit set, an unmasked server frame never does.
pub proof fn lemma_mask_bit(m: FrameModel)
    ensures
        crate::frame::model_bytes(m).len() >= 2,
        (crate::frame::model_bytes(m)[1] & 0x80 != 0) == (m.mask is Some),
{
    let plen = m.payload.len();
    let has_mask = m.mask is Some;
    if plen <= 125 {
        lemma_head_byte1(has_mask, plen as u8);
    } else if plen <= 0xFFFF {
        lemma_head_byte1(has_mask, 126u8);
    } else {
        lemma_head_byte1(has_mask, 127u8);
    }
}

} // verus!


