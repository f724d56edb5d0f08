use fastwebsockets::{
    Frame, FragmentCollector, OpCode, Role, StepOutcome, WebSocket, WebSocketError,
};

fn read_all(ws: &mut WebSocket, bytes: &[u8]) -> StepOutcome {
    ws.feed(bytes);
    loop {
        match ws.read_frame_step() {
            StepOutcome::Consumed => continue,
            other => return other,
        }
    }
}

fn expect_frame(out: StepOutcome) -> Frame {
    match out {
        StepOutcome::Output(f) => f,
        other => panic!("expected a frame, got {other:?}"),
    }
}

fn expect_error(out: StepOutcome) -> WebSocketError {
    match out {
        StepOutcome::Failed(e) => e,
        other => panic!("expected an error, got {other:?}"),
    }
}

#[test]
fn server_echo() {
    let mut ws = WebSocket::after_handshake(Role::Server);
    let input = [0x81, 0x85, 0x37, 0xfa, 0x21, 0x3d, 0x7f, 0x9f, 0x4d, 0x51, 0x58];
    let frame = expect_frame(read_all(&mut ws, &input));
    assert!(frame.fin);
    assert_eq!(frame.opcode, OpCode::Text);
    assert_eq!(frame.mask, None);
    assert_eq!(frame.payload, b"Hello".to_vec());
    ws.start_send_frame(frame).unwrap();
    assert_eq!(
        ws.write_half.buffer,
        vec![0x81, 0x05, 0x48, 0x65, 0x6c, 0x6c, 0x6f]
    );
}

#[test]
fn server_pongs_pings_internally() {
    let mut ws = WebSocket::after_handshake(Role::Server);
    ws.feed(&[0x89, 0x00]);
    assert!(matches!(ws.read_frame_step(), StepOutcome::Consumed));
    assert_eq!(ws.write_half.buffer, vec![0x8a, 0x00]);
    assert!(matches!(ws.read_frame_step(), StepOutcome::NeedData));
}

#[test]
fn pong_carries_the_ping_payload() {
    let mut ws = WebSocket::after_handshake(Role::Server);
    ws.feed(&[0x89, 0x03, 0x61, 0x62, 0x63]);
    assert!(matches!(ws.read_frame_step(), StepOutcome::Consumed));
    assert_eq!(ws.write_half.buffer, vec![0x8a, 0x03, 0x61, 0x62, 0x63]);
}

#[test]
fn raw_ping_is_surfaced_when_auto_pong_is_off() {
    let mut ws = WebSocket::after_handshake(Role::Server);
    ws.set_auto_pong(false);
    let frame = expect_frame(read_all(&mut ws, &[0x89, 0x01, 0x7a]));
    assert_eq!(frame.opcode, OpCode::Ping);
    assert_eq!(frame.payload, vec![0x7a]);
    assert!(ws.write_half.buffer.is_empty());
}

#[test]
fn fragmented_text_is_reassembled() {
    let mut ws = WebSocket::after_handshake(Role::Server);
    let mut fc = FragmentCollector::new(64 * 1024 * 1024);
    let first = expect_frame(read_all(&mut ws, &[0x01, 0x03, 0x61, 0x62, 0x63]));
    assert!(!first.fin);
    assert!(fc.accept(first).unwrap().is_none());
    let second = expect_frame(read_all(&mut ws, &[0x80, 0x02, 0x64, 0x65]));
    assert!(second.fin);
    assert_eq!(second.opcode, OpCode::Continuation);
    let whole = fc.accept(second).unwrap().expect("completed message");
    assert!(whole.fin);
    assert_eq!(whole.opcode, OpCode::Text);
    assert_eq!(whole.payload, b"abcde".to_vec());
}

#[test]
fn invalid_close_code_is_policed_with_a_1002_reply() {
    let mut ws = WebSocket::after_handshake(Role::Server);
    let err = expect_error(read_all(&mut ws, &[0x88, 0x02, 0x03, 0xe7]));
    assert_eq!(err, WebSocketError::InvalidCloseCode);
    assert_eq!(ws.write_half.buffer, vec![0x88, 0x02, 0x03, 0xea]);
    assert!(ws.is_closed());
}

#[test]
fn close_code_sweep() {
    let rejected = [0u16, 1, 999, 1004, 1005, 1006, 1012, 1013, 1100, 2999, 5000, 65535];
    for code in rejected {
        let mut ws = WebSocket::after_handshake(Role::Server);
        let bytes = [0x88, 0x02, (code >> 8) as u8, code as u8];
        let err = expect_error(read_all(&mut ws, &bytes));
        assert_eq!(err, WebSocketError::InvalidCloseCode, "code {code}");
        assert_eq!(
            ws.write_half.buffer,
            vec![0x88, 0x02, 0x03, 0xea],
            "reply for code {code}"
        );
    }
    let allowed = [1000u16, 1001, 1002, 1003, 1007, 1011, 3000, 3999, 4000, 4999];
    for code in allowed {
        let mut ws = WebSocket::after_handshake(Role::Server);
        let bytes = [0x88, 0x02, (code >> 8) as u8, code as u8];
        let frame = expect_frame(read_all(&mut ws, &bytes));
        assert_eq!(frame.opcode, OpCode::Close, "code {code}");
        assert_eq!(ws.write_half.buffer, vec![0x88, 0x02, (code >> 8) as u8, code as u8]);
    }
}

#[test]
fn empty_close_is_echoed() {
    let mut ws = WebSocket::after_handshake(Role::Server);
    let frame = expect_frame(read_all(&mut ws, &[0x88, 0x00]));
    assert_eq!(frame.opcode, OpCode::Close);
    assert!(frame.payload.is_empty());
    assert_eq!(ws.write_half.buffer, vec![0x88, 0x00]);
}

#[test]
fn one_byte_close_is_invalid() {
    let mut ws = WebSocket::after_handshake(Role::Server);
    let err = expect_error(read_all(&mut ws, &[0x88, 0x01, 0x03]));
    assert_eq!(err, WebSocketError::InvalidCloseFrame);
    assert!(ws.write_half.buffer.is_empty());
}

#[test]
fn close_reason_must_be_utf8() {
    let mut ws = WebSocket::after_handshake(Role::Server);
    let err = expect_error(read_all(&mut ws, &[0x88, 0x03, 0x03, 0xe8, 0xff]));
    assert_eq!(err, WebSocketError::InvalidUTF8);
}

#[test]
fn reserved_bits_are_rejected() {
    for first in [0xc1u8, 0xa2, 0x91, 0xf1] {
        let mut ws = WebSocket::after_handshake(Role::Server);
        let err = expect_error(read_all(&mut ws, &[first, 0x00]));
        assert_eq!(err, WebSocketError::ReservedBitsNotZero, "byte {first:#x}");
    }
}

#[test]
fn reserved_bits_fail_on_the_two_probe_bytes_alone() {
    let mut ws = WebSocket::after_handshake(Role::Server);
    ws.feed(&[0x41]);
    assert!(matches!(ws.read_frame_step(), StepOutcome::NeedData));
    ws.feed(&[0x05]);
    let err = expect_error(read_all(&mut ws, &[]));
    assert_eq!(err, WebSocketError::ReservedBitsNotZero);
}

#[test]
fn fragmented_control_frames_are_rejected() {
    let mut ws = WebSocket::after_handshake(Role::Server);
    let err = expect_error(read_all(&mut ws, &[0x09, 0x00]));
    assert_eq!(err, WebSocketError::ControlFrameFragmented);
}

#[test]
fn oversized_pings_are_rejected() {
    let mut ws = WebSocket::after_handshake(Role::Server);
    let mut bytes = vec![0x89, 0x7e, 0x00, 0x7e];
    bytes.extend(std::iter::repeat(0).take(126));
    let err = expect_error(read_all(&mut ws, &bytes));
    assert_eq!(err, WebSocketError::PingFrameTooLarge);
}

#[test]
fn frames_at_the_size_limit_are_rejected() {
    let mut ws = WebSocket::after_handshake(Role::Server);
    ws.set_max_message_size(10);
    let mut bytes = vec![0x82, 0x0a];
    bytes.extend(std::iter::repeat(1).take(10));
    let err = expect_error(read_all(&mut ws, &bytes));
    assert_eq!(err, WebSocketError::FrameTooLarge);
}

#[test]
fn non_utf8_text_is_rejected() {
    let mut ws = WebSocket::after_handshake(Role::Server);
    let err = expect_error(read_all(&mut ws, &[0x81, 0x02, 0xff, 0xfe]));
    assert_eq!(err, WebSocketError::InvalidUTF8);
}

#[test]
fn non_final_text_is_not_checked_for_utf8() {
    let mut ws = WebSocket::after_handshake(Role::Server);
    let frame = expect_frame(read_all(&mut ws, &[0x01, 0x01, 0xff]));
    assert_eq!(frame.opcode, OpCode::Text);
    assert!(!frame.fin);
}

#[test]
fn continuation_without_an_open_message_is_rejected() {
    let mut fc = FragmentCollector::new(1024);
    let err = fc.accept(Frame::new(true, OpCode::Continuation, None, vec![1])).unwrap_err();
    assert_eq!(err, WebSocketError::InvalidContinuationFrame);
}

#[test]
fn data_frame_inside_an_open_message_is_rejected() {
    let mut fc = FragmentCollector::new(1024);
    assert!(fc.accept(Frame::new(false, OpCode::Text, None, b"ab".to_vec())).unwrap().is_none());
    let err = fc.accept(Frame::binary(vec![1])).unwrap_err();
    assert_eq!(err, WebSocketError::InvalidContinuationFrame);
}

#[test]
fn control_frames_pass_through_mid_message() {
    let mut fc = FragmentCollector::new(1024);
    assert!(fc.accept(Frame::new(false, OpCode::Text, None, b"ab".to_vec())).unwrap().is_none());
    let ping = fc.accept(Frame::ping(vec![9])).unwrap().expect("ping passes through");
    assert_eq!(ping.opcode, OpCode::Ping);
    let done = fc
        .accept(Frame::new(true, OpCode::Continuation, None, b"cd".to_vec()))
        .unwrap()
        .expect("completed message");
    assert_eq!(done.payload, b"abcd".to_vec());
}

#[test]
fn reassembled_text_must_be_utf8() {
    let mut fc = FragmentCollector::new(1024);
    assert!(fc.accept(Frame::new(false, OpCode::Text, None, vec![0xc3])).unwrap().is_none());
    let err = fc.accept(Frame::new(true, OpCode::Continuation, None, vec![0x28])).unwrap_err();
    assert_eq!(err, WebSocketError::InvalidUTF8);
}

#[test]
fn split_utf8_code_point_is_fine_once_reassembled() {
    let mut fc = FragmentCollector::new(1024);
    assert!(fc.accept(Frame::new(false, OpCode::Text, None, vec![0xc3])).unwrap().is_none());
    let done = fc
        .accept(Frame::new(true, OpCode::Continuation, None, vec![0xa9]))
        .unwrap()
        .expect("completed message");
    assert_eq!(done.payload, vec![0xc3, 0xa9]);
}

#[test]
fn collector_enforces_the_message_size_limit() {
    let mut fc = FragmentCollector::new(4);
    assert!(fc.accept(Frame::new(false, OpCode::Binary, None, vec![1, 2])).unwrap().is_none());
    let err = fc.accept(Frame::new(true, OpCode::Continuation, None, vec![3, 4])).unwrap_err();
    assert_eq!(err, WebSocketError::FrameTooLarge);
}

#[test]
fn client_writes_are_masked_with_a_nonzero_key() {
    let mut ws = WebSocket::after_handshake(Role::Client);
    ws.start_send_frame(Frame::text(b"abc".to_vec())).unwrap();
    let buf = &ws.write_half.buffer;
    assert_eq!(buf[0], 0x81);
    assert_eq!(buf[1], 0x80 | 0x03);
    let key = [buf[2], buf[3], buf[4], buf[5]];
    assert_ne!(key, [0, 0, 0, 0]);
    let unmasked: Vec<u8> =
        buf[6..].iter().enumerate().map(|(i, b)| b ^ key[i % 4]).collect();
    assert_eq!(unmasked, b"abc".to_vec());
}

#[test]
fn server_writes_are_never_masked() {
    let mut ws = WebSocket::after_handshake(Role::Server);
    ws.start_send_frame(Frame::text(b"abc".to_vec())).unwrap();
    assert_eq!(ws.write_half.buffer, vec![0x81, 0x03, 0x61, 0x62, 0x63]);
}

#[test]
fn close_latch_fails_later_sends() {
    let mut ws = WebSocket::after_handshake(Role::Server);
    ws.start_send_frame(Frame::close_raw(vec![0x03, 0xe8])).unwrap();
    assert!(ws.is_closed());
    let err = ws.start_send_frame(Frame::text(b"hi".to_vec())).unwrap_err();
    assert_eq!(err, WebSocketError::ConnectionClosed);
    let err = ws.start_send_frame(Frame::binary(vec![1])).unwrap_err();
    assert_eq!(err, WebSocketError::ConnectionClosed);
    ws.start_send_frame(Frame::close_raw(vec![])).unwrap();
}

#[test]
fn incoming_data_after_local_close_is_refused() {
    let mut ws = WebSocket::after_handshake(Role::Server);
    ws.start_send_frame(Frame::close_raw(vec![])).unwrap();
    let drained = ws.write_half.buffer.len();
    ws.write_half.advance(drained);
    let err = expect_error(read_all(&mut ws, &[0x81, 0x02, 0x68, 0x69]));
    assert_eq!(err, WebSocketError::ConnectionClosed);
}

#[test]
fn reads_may_still_drain_a_peer_close_after_local_close() {
    let mut ws = WebSocket::after_handshake(Role::Server);
    ws.start_send_frame(Frame::close_raw(vec![])).unwrap();
    let frame = expect_frame(read_all(&mut ws, &[0x88, 0x00]));
    assert_eq!(frame.opcode, OpCode::Close);
}

#[test]
fn eof_mid_frame_is_the_callers_unexpected_eof() {
    let mut ws = WebSocket::after_handshake(Role::Server);
    ws.feed(&[0x81, 0x05, 0x48]);
    assert!(matches!(ws.read_frame_step(), StepOutcome::NeedData));
    assert_eq!(WebSocketError::UnexpectedEOF, WebSocketError::UnexpectedEOF);
}

#[test]
fn masked_frame_with_two_byte_length_is_unmasked() {
    let key = [0x10, 0x20, 0x30, 0x40];
    let payload: Vec<u8> = (0..256).map(|i| (i % 256) as u8).collect();
    let mut bytes = vec![0x82, 0x80 | 126, 0x01, 0x00, key[0], key[1], key[2], key[3]];
    bytes.extend(payload.iter().enumerate().map(|(i, b)| b ^ key[i % 4]));
    let mut ws = WebSocket::after_handshake(Role::Server);
    let frame = expect_frame(read_all(&mut ws, &bytes));
    assert_eq!(frame.opcode, OpCode::Binary);
    assert_eq!(frame.mask, None);
    assert_eq!(frame.payload, payload);
}

#[test]
fn split_halves_answer_pings_through_the_caller() {
    let (mut rh, mut wh) = fastwebsockets::after_handshake_split(Role::Server);
    rh.feed(&[0x89, 0x02, 0x68, 0x69]);
    match rh.read_frame_inner() {
        fastwebsockets::ReadOutcome::Consumed { reply } => {
            assert_eq!(reply.opcode, OpCode::Pong);
            assert_eq!(reply.payload, vec![0x68, 0x69]);
            wh.start_send_frame(reply).unwrap();
        }
        other => panic!("expected an internally consumed ping, got {other:?}"),
    }
    assert_eq!(wh.buffer, vec![0x8a, 0x02, 0x68, 0x69]);
    assert!(matches!(
        rh.read_frame_inner(),
        fastwebsockets::ReadOutcome::NeedData
    ));
}

#[test]
fn residual_bytes_stay_for_the_next_parse() {
    let mut ws = WebSocket::after_handshake(Role::Server);
    ws.feed(&[0x82, 0x01, 0xaa, 0x82, 0x01, 0xbb]);
    let first = expect_frame(read_all(&mut ws, &[]));
    assert_eq!(first.payload, vec![0xaa]);
    let second = expect_frame(read_all(&mut ws, &[]));
    assert_eq!(second.payload, vec![0xbb]);
}
