//! The in-memory frame value and the wire encoding of its header.

use vstd::prelude::*;

use crate::error::WebSocketError;
use crate::mask::masked_seq;

verus! {

/// The 4-bit operation code of a frame. Opcodes 8 and above are control
/// opcodes; the others carry data.
#[derive(Clone, Copy, PartialEq, Eq, Structural, Debug)]
pub enum OpCode {
    /// 0: continuation of a fragmented message.
    Continuation,
    /// 1: text data.
    Text,
    /// 2: binary data.
    Binary,
    /// 8: close.
    Close,
    /// 9: ping.
    Ping,
    /// 10: pong.
    Pong,
}

/// The wire value of an opcode.
pub open spec fn opcode_value(op: OpCode) -> u8 {
    match op {
        OpCode::Continuation => 0,
        OpCode::Text => 1,
        OpCode::Binary => 2,
        OpCode::Close => 8,
        OpCode::Ping => 9,
        OpCode::Pong => 10,
    }
}

/// The opcode a wire value stands for, if any.
pub open spec fn opcode_of(v: u8) -> Option<OpCode> {
    if v == 0 {
        Some(OpCode::Continuation)
    } else if v == 1 {
        Some(OpCode::Text)
    } else if v == 2 {
        Some(OpCode::Binary)
    } else if v == 8 {
        Some(OpCode::Close)
    } else if v == 9 {
        Some(OpCode::Ping)
    } else if v == 10 {
        Some(OpCode::Pong)
    } else {
        None
    }
}

/// Whether an opcode is a control opcode (close, ping, pong).
pub open spec fn op_is_control(op: OpCode) -> bool {
    match op {
        OpCode::Close | OpCode::Ping | OpCode::Pong => true,
        _ => false,
    }
}

/// The opcode named by the low nibble of the first header byte, or the
/// protocol error for the ten undefined values.
pub fn opcode_from_u8(v: u8) -> (r: Result<OpCode, WebSocketError>)
    ensures
        r == match opcode_of(v) {
            Some(op) => Result::<OpCode, WebSocketError>::Ok(op),
            None => Result::<OpCode, WebSocketError>::Err(WebSocketError::InvalidValue),
        },
{
    if v == 0 {
        Ok(OpCode::Continuation)
    } else if v == 1 {
        Ok(OpCode::Text)
    } else if v == 2 {
        Ok(OpCode::Binary)
    } else if v == 8 {
        Ok(OpCode::Close)
    } else if v == 9 {
        Ok(OpCode::Ping)
    } else if v == 10 {
        Ok(OpCode::Pong)
    } else {
        Err(WebSocketError::InvalidValue)
    }
}

/// Whether an opcode is a control opcode.
pub fn is_control(op: OpCode) -> (r: bool)
    ensures
        r == op_is_control(op),
{
    matches!(op, OpCode::Close | OpCode::Ping | OpCode::Pong)
}

/// The wire value of an opcode.
pub fn opcode_to_u8(op: OpCode) -> (r: u8)
    ensures
        r == opcode_value(op),
{
    match op {
        OpCode::Continuation => 0,
        OpCode::Text => 1,
        OpCode::Binary => 2,
        OpCode::Close => 8,
        OpCode::Ping => 9,
        OpCode::Pong => 10,
    }
}

/// A 16-bit value as two big-endian bytes.
pub open spec fn u16_be(v: u16) -> Seq<u8> {
    seq![(v >> 8) as u8, v as u8]
}

/// A 64-bit value as eight big-endian bytes.
pub open spec fn u64_be(v: u64) -> Seq<u8> {
    seq![
        (v >> 56) as u8,
        (v >> 48) as u8,
        (v >> 40) as u8,
        (v >> 32) as u8,
        (v >> 24) as u8,
        (v >> 16) as u8,
        (v >> 8) as u8,
        v as u8,
    ]
}

/// The value of two big-endian bytes.
pub open spec fn be16_val(b0: u8, b1: u8) -> u16 {
    ((b0 as u16) << 8) | (b1 as u16)
}

/// The value of eight big-endian bytes.
pub open spec fn be64_val(b: Seq<u8>) -> u64 {
    ((b[0] as u64) << 56) | ((b[1] as u64) << 48) | ((b[2] as u64) << 40) | ((b[3] as u64) << 32)
        | ((b[4] as u64) << 24) | ((b[5] as u64) << 16) | ((b[6] as u64) << 8) | (b[7] as u64)
}

/// Reading back the two big-endian bytes of a 16-bit value gives the
/// value again.
pub proof fn lemma_u16_be_roundtrip(v: u16)
    ensures
        be16_val(u16_be(v)[0], u16_be(v)[1]) == v,
{
    let b0 = (v >> 8) as u8;
    let b1 = v as u8;
    assert((((v >> 8) as u8 as u16) << 8) | (v as u8 as u16) == v) by (bit_vector);
}

/// Reading back the eight big-endian bytes of a 64-bit value gives the
/// value again.
pub proof fn lemma_u64_be_roundtrip(v: u64)
    ensures
        be64_val(u64_be(v)) == v,
{
    assert(((((v >> 56) as u8) as u64) << 56) | ((((v >> 48) as u8) as u64) << 48)
        | ((((v >> 40) as u8) as u64) << 40) | ((((v >> 32) as u8) as u64) << 32)
        | ((((v >> 24) as u8) as u64) << 24) | ((((v >> 16) as u8) as u64) << 16)
        | ((((v >> 8) as u8) as u64) << 8) | ((v as u8) as u64) == v) by (bit_vector);
    assert(u64_be(v).len() == 8);
}

/// The mask field of a frame seen as a byte sequence.
pub open spec fn mask_view(m: Option<[u8; 4]>) -> Option<Seq<u8>> {
    match m {
        Some(k) => Some(k@),
        None => None,
    }
}

/// The RFC 6455 header for a frame with the given FIN bit, opcode, mask
/// and payload length: first `FIN << 7 | opcode`, then `MASK << 7`
/// joined with the length code (the length itself when at most 125, 126
/// with two big-endian bytes when it fits 16 bits, 127 with eight
/// big-endian bytes otherwise), then the 4-byte mask when present. The
/// RSV bits are always zero.
pub open spec fn head_bytes(fin: bool, op: OpCode, mask: Option<Seq<u8>>, plen: nat) -> Seq<u8> {
    let b0 = (if fin {
        0x80u8
    } else {
        0u8
    }) | opcode_value(op);
    let mbit = if mask is Some {
        0x80u8
    } else {
        0u8
    };
    let mask_bytes = match mask {
        Some(k) => k,
        None => Seq::<u8>::empty(),
    };
    if plen <= 125 {
        seq![b0, mbit | (plen as u8)] + mask_bytes
    } else if plen <= 0xFFFF {
        seq![b0, mbit | 126u8] + u16_be(plen as u16) + mask_bytes
    } else {
        seq![b0, mbit | 127u8] + u64_be(plen as u64) + mask_bytes
    }
}

/// One WebSocket frame: the FIN bit, the opcode, the optional 4-byte
/// mask, and the payload bytes.
#[derive(Debug)]
pub struct Frame {
    /// Whether this frame ends its message.
    pub fin: bool,
    /// The operation code.
    pub opcode: OpCode,
    /// The masking key, when the payload is masked.
    pub mask: Option<[u8; 4]>,
    /// The payload bytes as they stand (masked when `mask` is set on a
    /// frame read off the wire).
    pub payload: Vec<u8>,
}

/// The parts of a frame as the wire carries them, for specification.
pub struct FrameModel {
    /// The FIN bit.
    pub fin: bool,
    /// The opcode.
    pub opcode: OpCode,
    /// The mask bytes, when the mask bit was set.
    pub mask: Option<Seq<u8>>,
    /// The payload bytes as they stand on the wire.
    pub payload: Seq<u8>,
}

/// The parts of an in-memory frame.
pub open spec fn model_of(f: Frame) -> FrameModel {
    FrameModel { fin: f.fin, opcode: f.opcode, mask: mask_view(f.mask), payload: f.payload@ }
}

/// The full wire form of a frame model: header then payload.
pub open spec fn model_bytes(m: FrameModel) -> Seq<u8> {
    head_bytes(m.fin, m.opcode, m.mask, m.payload.len()) + m.payload
}

/// A frame model with its payload masked under `k` and `k` recorded as
/// its mask.
pub open spec fn masked_model(m: FrameModel, k: Seq<u8>) -> FrameModel {
    FrameModel { fin: m.fin, opcode: m.opcode, mask: Some(k), payload: masked_seq(m.payload, k) }
}

/// Whether an in-memory frame has exactly the parts of a frame model.
pub open spec fn frame_matches(f: Frame, m: FrameModel) -> bool {
    &&& f.fin == m.fin
    &&& f.opcode == m.opcode
    &&& mask_view(f.mask) == m.mask
    &&& f.payload@ == m.payload
}

/// `frame_matches` lifted over optional frames.
pub open spec fn opt_frame_matches(f: Option<Frame>, m: Option<FrameModel>) -> bool {
    match (f, m) {
        (Some(f0), Some(m0)) => frame_matches(f0, m0),
        (None, None) => true,
        _ => false,
    }
}

/// The header of a frame on the wire.
pub open spec fn frame_head(f: Frame) -> Seq<u8> {
    head_bytes(f.fin, f.opcode, mask_view(f.mask), f.payload@.len())
}

/// The full wire form of a frame: header then payload.
pub open spec fn frame_bytes(f: Frame) -> Seq<u8> {
    frame_head(f) + f.payload@
}

/// Relies on simdutf8::basic::from_utf8: like str::from_utf8, it accepts
/// exactly the byte sequences that are valid UTF-8.
#[verifier::external_body]
pub(crate) fn utf8_is_valid(b: &[u8]) -> (r: bool)
    ensures
        r == vstd::utf8::valid_utf8(b@),
{
    simdutf8::basic::from_utf8(b).is_ok()
}

impl Frame {
    /// A frame from its parts.
    pub fn new(fin: bool, opcode: OpCode, mask: Option<[u8; 4]>, payload: Vec<u8>) -> (f: Frame)
        ensures
            f.fin == fin,
            f.opcode == opcode,
            f.mask == mask,
            f.payload == payload,
    {
        Frame { fin, opcode, mask, payload }
    }

    /// An unfragmented, unmasked text frame.
    pub fn text(payload: Vec<u8>) -> (f: Frame)
        ensures
            f.fin,
            f.opcode == OpCode::Text,
            f.mask == Option::<[u8; 4]>::None,
            f.payload == payload,
    {
        Frame { fin: true, opcode: OpCode::Text, mask: None, payload }
    }

    /// An unfragmented, unmasked binary frame.
    pub fn binary(payload: Vec<u8>) -> (f: Frame)
        ensures
            f.fin,
            f.opcode == OpCode::Binary,
            f.mask == Option::<[u8; 4]>::None,
            f.payload == payload,
    {
        Frame { fin: true, opcode: OpCode::Binary, mask: None, payload }
    }

    /// An unmasked ping frame.
    pub fn ping(payload: Vec<u8>) -> (f: Frame)
        ensures
            f.fin,
            f.opcode == OpCode::Ping,
            f.mask == Option::<[u8; 4]>::None,
            f.payload == payload,
    {
        Frame { fin: true, opcode: OpCode::Ping, mask: None, payload }
    }

    /// An unmasked pong frame.
    pub fn pong(payload: Vec<u8>) -> (f: Frame)
        ensures
            f.fin,
            f.opcode == OpCode::Pong,
            f.mask == Option::<[u8; 4]>::None,
            f.payload == payload,
    {
        Frame { fin: true, opcode: OpCode::Pong, mask: None, payload }
    }

    /// A close frame whose payload is the code as two big-endian bytes
    /// followed by the reason bytes.
    pub fn close(code: u16, reason: &[u8]) -> (f: Frame)
        ensures
            f.fin,
            f.opcode == OpCode::Close,
            f.mask == Option::<[u8; 4]>::None,
            f.payload@ == u16_be(code) + reason@,
    {
        let mut payload: Vec<u8> = Vec::new();
        payload.push(#[verifier::truncate] ((code >> 8) as u8));
        payload.push(#[verifier::truncate] (code as u8));
        let n = reason.len();
        let mut i: usize = 0;
        while i < n
            invariant
                n == reason@.len(),
                i <= n,
                payload@ == u16_be(code) + reason@.take(i as int),
            decreases n - i,
        {
            let b = *vstd::slice::slice_index_get(reason, i);
            payload.push(b);
            assert(payload@ =~= u16_be(code) + reason@.take(i + 1 as int));
            i = i + 1;
        }
        assert(payload@ =~= u16_be(code) + reason@);
        Frame { fin: true, opcode: OpCode::Close, mask: None, payload }
    }

    /// A close frame whose payload is taken verbatim.
    pub fn close_raw(payload: Vec<u8>) -> (f: Frame)
        ensures
            f.fin,
            f.opcode == OpCode::Close,
            f.mask == Option::<[u8; 4]>::None,
            f.payload == payload,
    {
        Frame { fin: true, opcode: OpCode::Close, mask: None, payload }
    }

    /// Whether this frame carries a control opcode.
    pub fn is_control(&self) -> (r: bool)
        ensures
            r == op_is_control(self.opcode),
    {
        is_control(self.opcode)
    }

    /// XOR the payload with the frame's own mask and clear the mask; a
    /// frame without a mask is left as it is.
    pub fn unmask(&mut self)
        ensures
            final(self).fin == old(self).fin,
            final(self).opcode == old(self).opcode,
            final(self).mask == Option::<[u8; 4]>::None || old(self).mask is None,
            match old(self).mask {
                Some(k) => final(self).payload@ == masked_seq(old(self).payload@, k@)
                    && final(self).mask == Option::<[u8; 4]>::None,
                None => *final(self) == *old(self),
            },
    {
        match self.mask {
            Some(k) => {
                crate::mask::unmask(&mut self.payload, k);
                self.mask = None;
            },
            None => {},
        }
    }

    /// XOR the payload with the given key and record the key as the
    /// frame's mask.
    pub fn apply_mask(&mut self, key: [u8; 4])
        ensures
            final(self).fin == old(self).fin,
            final(self).opcode == old(self).opcode,
            final(self).mask == Some(key),
            final(self).payload@ == masked_seq(old(self).payload@, key@),
    {
        crate::mask::unmask(&mut self.payload, key);
        self.mask = Some(key);
    }

    /// Whether the payload is valid UTF-8.
    pub fn is_utf8(&self) -> (r: bool)
        ensures
            r == vstd::utf8::valid_utf8(self.payload@),
    {
        utf8_is_valid(self.payload.as_slice())
    }

    /// Append the RFC 6455 header of this frame to `out`.
    pub fn fmt_head(&self, out: &mut Vec<u8>)
        ensures
            final(out)@ == old(out)@ + frame_head(*self),
    {
        let b0: u8 = (if self.fin {
            0x80u8
        } else {
            0u8
        }) | opcode_to_u8(self.opcode);
        out.push(b0);
        let mbit: u8 = if self.mask.is_some() {
            0x80
        } else {
            0
        };
        let plen = self.payload.len();
        if plen <= 125 {
            out.push(mbit | (#[verifier::truncate] (plen as u8)));
        } else if plen <= 0xFFFF {
            out.push(mbit | 126);
            let v = #[verifier::truncate] (plen as u16);
            out.push(#[verifier::truncate] ((v >> 8) as u8));
            out.push(#[verifier::truncate] (v as u8));
            assert(v == plen as u16);
        } else {
            out.push(mbit | 127);
            let v = plen as u64;
            out.push(#[verifier::truncate] ((v >> 56) as u8));
            out.push(#[verifier::truncate] ((v >> 48) as u8));
            out.push(#[verifier::truncate] ((v >> 40) as u8));
            out.push(#[verifier::truncate] ((v >> 32) as u8));
            out.push(#[verifier::truncate] ((v >> 24) as u8));
            out.push(#[verifier::truncate] ((v >> 16) as u8));
            out.push(#[verifier::truncate] ((v >> 8) as u8));
            out.push(#[verifier::truncate] (v as u8));
        }
        match self.mask {
            Some(k) => {
                out.push(k[0]);
                out.push(k[1]);
                out.push(k[2]);
                out.push(k[3]);
                assert(k@ =~= seq![k@[0], k@[1], k@[2], k@[3]]);
            },
            None => {},
        }
        assert(out@ =~= old(out)@ + frame_head(*self));
    }

    /// Append the full wire form of this frame, header then payload, to
    /// `out`.
    pub fn fmt(&self, out: &mut Vec<u8>)
        ensures
            final(out)@ == old(out)@ + frame_bytes(*self),
    {
        self.fmt_head(out);
        let n = self.payload.len();
        let mut i: usize = 0;
        while i < n
            invariant
                n == self.payload@.len(),
                i <= n,
                out@ == old(out)@ + frame_head(*self) + self.payload@.take(i as int),
            decreases n - i,
        {
            let b = self.payload[i];
            out.push(b);
            assert(out@ =~= old(out)@ + frame_head(*self) + self.payload@.take(i + 1 as int));
            i = i + 1;
        }
        assert(out@ =~= old(out)@ + frame_bytes(*self));
    }
}

} // verus!
