//! The fragment collector: reassembles a run of continuation frames
//! into one message and enforces the interleaving rules.

use vstd::prelude::*;

use crate::error::WebSocketError;
use crate::frame::{frame_matches, model_of, op_is_control, Frame, FrameModel, OpCode};
use vstd::utf8::valid_utf8;

verus! {

/// What the collector makes of one incoming frame.
pub enum Collected {
    /// The frame passes through untouched: a control frame, or an
    /// unfragmented data frame while no message is open.
    Passed(FrameModel),
    /// The frame was absorbed into the open message; read on.
    Buffering,
    /// The frame completed the open message, reassembled here.
    Complete(FrameModel),
    /// The frame violates the fragmentation rules or the size bound.
    Refused(WebSocketError),
}

/// The collector's state and result after one incoming frame.
pub struct CollectStep {
    /// What to hand the caller.
    pub result: Collected,
    /// The opcode of the open message afterwards, if one is open.
    pub opcode_of_message: Option<OpCode>,
    /// The accumulated payload afterwards.
    pub fragments: Seq<u8>,
}

/// One step of the collector, as a function of its state and the
/// incoming frame: control frames pass through even mid-message; a
/// final data frame passes through while idle; a non-final data frame
/// opens a message; only continuation frames may extend an open
/// message, the final one emitting the whole message (checked as UTF-8
/// when the message is text); the accumulated size must stay under the
/// limit.
pub open spec fn collect(c: FragmentCollector, m: FrameModel) -> CollectStep {
    let keep = CollectStep {
        result: Collected::Passed(m),
        opcode_of_message: c.opcode_of_message,
        fragments: c.fragments@,
    };
    if op_is_control(m.opcode) {
        keep
    } else {
        match m.opcode {
            OpCode::Continuation => match c.opcode_of_message {
                None => CollectStep {
                    result: Collected::Refused(WebSocketError::InvalidContinuationFrame),
                    ..keep
                },
                Some(op) => {
                    let acc = c.fragments@ + m.payload;
                    if acc.len() >= c.max_message_size as nat {
                        CollectStep {
                            result: Collected::Refused(WebSocketError::FrameTooLarge),
                            ..keep
                        }
                    } else if !m.fin {
                        CollectStep {
                            result: Collected::Buffering,
                            opcode_of_message: Some(op),
                            fragments: acc,
                        }
                    } else if op == OpCode::Text && !valid_utf8(acc) {
                        CollectStep {
                            result: Collected::Refused(WebSocketError::InvalidUTF8),
                            opcode_of_message: Some(op),
                            fragments: acc,
                        }
                    } else {
                        CollectStep {
                            result: Collected::Complete(
                                FrameModel { fin: true, opcode: op, mask: None, payload: acc },
                            ),
                            opcode_of_message: None,
                            fragments: Seq::empty(),
                        }
                    }
                },
            },
            _ => if c.opcode_of_message is Some {
                CollectStep {
                    result: Collected::Refused(WebSocketError::InvalidContinuationFrame),
                    ..keep
                }
            } else if m.fin {
                keep
            } else if m.payload.len() >= c.max_message_size as nat {
                CollectStep { result: Collected::Refused(WebSocketError::FrameTooLarge), ..keep }
            } else {
                CollectStep {
                    result: Collected::Buffering,
                    opcode_of_message: Some(m.opcode),
                    fragments: m.payload,
                }
            },
        }
    }
}

/// Reassembles fragmented messages out of the frames a read half
/// yields.
pub struct FragmentCollector {
    /// The concatenated payloads of the message in progress.
    pub fragments: Vec<u8>,
    /// The opcode of the message in progress (text or binary), if one
    /// is open.
    pub opcode_of_message: Option<OpCode>,
    /// Messages of this size or more are rejected.
    pub max_message_size: usize,
}

impl FragmentCollector {
    /// An idle collector with the given size limit.
    pub fn new(max_message_size: usize) -> (r: FragmentCollector)
        ensures
            r.fragments@ == Seq::<u8>::empty(),
            r.opcode_of_message is None,
            r.max_message_size == max_message_size,
    {
        FragmentCollector { fragments: Vec::new(), opcode_of_message: None, max_message_size }
    }

    /// Take one frame from the read half: pass it through, absorb it
    /// into the open message, emit the completed message, or refuse it.
    pub fn accept(&mut self, frame: Frame) -> (r: Result<Option<Frame>, WebSocketError>)
        ensures
            final(self).max_message_size == old(self).max_message_size,
            ({
                let st = collect(*old(self), model_of(frame));
                &&& final(self).opcode_of_message == st.opcode_of_message
                &&& final(self).fragments@ == st.fragments
                &&& match st.result {
                    Collected::Passed(m) => (r matches Ok(Some(f)) && frame_matches(f, m)),
                    Collected::Buffering => r == Result::<Option<Frame>, WebSocketError>::Ok(None),
                    Collected::Complete(m) => (r matches Ok(Some(f)) && frame_matches(f, m)),
                    Collected::Refused(e) => r == Result::<Option<Frame>, WebSocketError>::Err(e),
                }
            }),
    {
        if frame.is_control() {
            return Ok(Some(frame));
        }
        match frame.opcode {
            OpCode::Continuation => {
                let op = match self.opcode_of_message {
                    None => {
                        return Err(WebSocketError::InvalidContinuationFrame);
                    },
                    Some(op) => op,
                };
                let plen = frame.payload.len();
                if plen >= self.max_message_size || self.fragments.len()
                    >= self.max_message_size - plen {
                    return Err(WebSocketError::FrameTooLarge);
                }
                let mut payload = frame.payload;
                self.fragments.append(&mut payload);
                if !frame.fin {
                    return Ok(None);
                }
                if matches!(op, OpCode::Text) {
                    let ok = crate::frame::utf8_is_valid(self.fragments.as_slice());
                    if !ok {
                        return Err(WebSocketError::InvalidUTF8);
                    }
                }
                let mut whole: Vec<u8> = Vec::new();
                core::mem::swap(&mut whole, &mut self.fragments);
                self.opcode_of_message = None;
                Ok(Some(Frame::new(true, op, None, whole)))
            },
            _ => {
                if self.opcode_of_message.is_some() {
                    return Err(WebSocketError::InvalidContinuationFrame);
                }
                if frame.fin {
                    return Ok(Some(frame));
                }
                if frame.payload.len() >= self.max_message_size {
                    return Err(WebSocketError::FrameTooLarge);
                }
                self.opcode_of_message = Some(frame.opcode);
                self.fragments = frame.payload;
                Ok(None)
            },
        }
    }
}


/// A text message reassembled across continuations is checked on
/// completion with the same result a single final text frame with the
/// whole payload would get from the read half.
pub proof fn lemma_collector_validates_like_single_frame(
    rh: crate::read::ReadHalf,
    c: FragmentCollector,
    m: FrameModel,
)
    requires
        c.opcode_of_message == Some(OpCode::Text),
        m.opcode == OpCode::Continuation,
        m.fin,
        (c.fragments@ + m.payload).len() < c.max_message_size as nat,
    ensures
        (collect(c, m).result == Collected::Refused(WebSocketError::InvalidUTF8))
            <==> (crate::read::process(
            rh,
            FrameModel {
                fin: true,
                opcode: OpCode::Text,
                mask: None,
                payload: c.fragments@ + m.payload,
            },
        ) == (crate::read::Processed::Rejected {
            error: WebSocketError::InvalidUTF8,
            reply: None,
        })),
{
}

} // verus!

