use fastwebsockets::{unmask, Frame, OpCode, ReadHalf, Role, StepOutcome, WebSocket};

fn read_all(ws: &mut WebSocket, bytes: &[u8]) -> StepOutcome {
    ws.feed(bytes);
    loop {
        match ws.read_frame_step() {
            StepOutcome::Consumed => continue,
            other => return other,
        }
    }
}

#[test]
fn masking_is_an_involution() {
    let key = [0x37, 0xfa, 0x21, 0x3d];
    let original: Vec<u8> = (0u16..300).map(|i| (i % 256) as u8).collect();
    let mut buf = original.clone();
    unmask(&mut buf, key);
    assert_ne!(buf, original);
    unmask(&mut buf, key);
    assert_eq!(buf, original);
}

#[test]
fn masking_small_buffers() {
    for len in 0..9usize {
        let key = [1, 2, 3, 4];
        let original: Vec<u8> = (0..len as u8).collect();
        let mut buf = original.clone();
        unmask(&mut buf, key);
        unmask(&mut buf, key);
        assert_eq!(buf, original);
    }
}

#[test]
fn head_of_short_unmasked_frame() {
    let frame = Frame::binary(vec![1, 2, 3]);
    let mut out = Vec::new();
    frame.fmt_head(&mut out);
    assert_eq!(out, vec![0x82, 0x03]);
}

#[test]
fn head_of_text_frame_s1_echo_bytes() {
    let frame = Frame::text(b"Hello".to_vec());
    let mut out = Vec::new();
    frame.fmt(&mut out);
    assert_eq!(out, vec![0x81, 0x05, 0x48, 0x65, 0x6c, 0x6c, 0x6f]);
}

#[test]
fn head_uses_two_byte_length_from_126() {
    let frame = Frame::binary(vec![0; 126]);
    let mut out = Vec::new();
    frame.fmt_head(&mut out);
    assert_eq!(out, vec![0x82, 126, 0x00, 0x7e]);
}

#[test]
fn head_uses_eight_byte_length_above_65535() {
    let frame = Frame::binary(vec![0; 65536]);
    let mut out = Vec::new();
    frame.fmt_head(&mut out);
    assert_eq!(out, vec![0x82, 127, 0, 0, 0, 0, 0, 1, 0, 0]);
}

#[test]
fn head_writes_mask_when_present() {
    let frame = Frame::new(true, OpCode::Binary, Some([9, 8, 7, 6]), vec![1]);
    let mut out = Vec::new();
    frame.fmt_head(&mut out);
    assert_eq!(out, vec![0x82, 0x81, 9, 8, 7, 6]);
}

#[test]
fn close_frame_prepends_big_endian_code() {
    let frame = Frame::close(1002, b"bye");
    assert_eq!(frame.opcode, OpCode::Close);
    assert!(frame.fin);
    assert_eq!(frame.payload, vec![0x03, 0xea, b'b', b'y', b'e']);
}

#[test]
fn close_raw_keeps_payload_verbatim() {
    let frame = Frame::close_raw(vec![0x03, 0xe8]);
    assert_eq!(frame.payload, vec![0x03, 0xe8]);
    assert_eq!(frame.opcode, OpCode::Close);
}

#[test]
fn header_round_trip_across_length_encodings() {
    for &len in &[0usize, 1, 125, 126, 4096, 65535, 65536, 100000] {
        let payload: Vec<u8> = (0..len).map(|i| (i % 251) as u8).collect();
        let frame = Frame::binary(payload.clone());
        let mut bytes = Vec::new();
        frame.fmt(&mut bytes);
        let mut ws = WebSocket::after_handshake(Role::Server);
        match read_all(&mut ws, &bytes) {
            StepOutcome::Output(f) => {
                assert!(f.fin);
                assert_eq!(f.opcode, OpCode::Binary);
                assert_eq!(f.mask, None);
                assert_eq!(f.payload, payload);
            }
            _ => panic!("expected a frame of length {len}"),
        }
    }
}

#[test]
fn parser_survives_any_chunking() {
    let payload: Vec<u8> = (0..300).map(|i| (i % 7) as u8).collect();
    let frame = Frame::binary(payload.clone());
    let mut bytes = Vec::new();
    frame.fmt(&mut bytes);
    for chunk in [1usize, 2, 3, 5, 17] {
        let mut rh = ReadHalf::after_handshake(Role::Server);
        let mut delivered = None;
        for piece in bytes.chunks(chunk) {
            match rh.parse_frame_header() {
                None => {}
                Some(other) => panic!("spurious result before all bytes: {other:?}"),
            }
            rh.feed(piece);
        }
        if let Some(Ok(f)) = rh.parse_frame_header() {
            delivered = Some(f);
        }
        let f = delivered.expect("whole frame after last chunk");
        assert_eq!(f.payload, payload);
        assert_eq!(f.opcode, OpCode::Binary);
    }
}

#[test]
fn unknown_opcodes_are_invalid() {
    for op in [3u8, 4, 5, 6, 7, 11, 12, 13, 14, 15] {
        let mut ws = WebSocket::after_handshake(Role::Server);
        match read_all(&mut ws, &[0x80 | op, 0x00]) {
            StepOutcome::Failed(e) => {
                assert_eq!(e, fastwebsockets::WebSocketError::InvalidValue)
            }
            other => panic!("opcode {op} gave {other:?}"),
        }
    }
}
