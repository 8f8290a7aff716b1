use discord_rpc::connection::opcode;
use discord_rpc::frame::{decode_frame, decode_header, encode_frame, Frame, HEADER_LEN};

#[test]
fn header_is_eight_bytes() {
    assert_eq!(HEADER_LEN, 8);
}

#[test]
fn opcodes_have_their_wire_values() {
    assert_eq!(opcode::HANDSHAKE, 0);
    assert_eq!(opcode::FRAME, 1);
    assert_eq!(opcode::CLOSE, 2);
    assert_eq!(opcode::PING, 3);
    assert_eq!(opcode::PONG, 4);
}

#[test]
fn encode_writes_a_little_endian_header_then_the_payload() {
    let bytes = encode_frame(opcode::FRAME, b"hi");
    assert_eq!(bytes, vec![1, 0, 0, 0, 2, 0, 0, 0, b'h', b'i']);
}

#[test]
fn encode_of_an_empty_payload_is_the_header_alone() {
    let bytes = encode_frame(opcode::PONG, &[]);
    assert_eq!(bytes, vec![4, 0, 0, 0, 0, 0, 0, 0]);
}

#[test]
fn encode_spreads_wide_numbers_over_four_bytes() {
    let payload = vec![7u8; 0x0102];
    let bytes = encode_frame(0xDEAD_BEEF, &payload);
    assert_eq!(&bytes[..8], &[0xEF, 0xBE, 0xAD, 0xDE, 0x02, 0x01, 0x00, 0x00]);
    assert_eq!(bytes.len(), 8 + 0x0102);
    assert_eq!(&bytes[8..], &payload[..]);
}

#[test]
fn encode_agrees_with_the_standard_byte_order() {
    for &value in &[0u32, 1, 255, 256, 65_535, 65_536, 16_777_215, 16_777_216, u32::MAX] {
        let bytes = encode_frame(value, &[]);
        assert_eq!(&bytes[..4], &value.to_le_bytes());
    }
}

#[test]
fn decode_header_reads_both_fields() {
    let fields = decode_header(&[3, 0, 0, 0, 0x10, 0x27, 0, 0]);
    assert_eq!(fields, Some((3, 10_000)));
    assert_eq!(decode_header(&[0xFF; 8]), Some((u32::MAX, u32::MAX)));
}

#[test]
fn decode_header_refuses_other_lengths() {
    assert_eq!(decode_header(&[]), None);
    assert_eq!(decode_header(&[1, 0, 0, 0, 0, 0, 0]), None);
    assert_eq!(decode_header(&[1, 0, 0, 0, 0, 0, 0, 0, 0]), None);
}

#[test]
fn decode_inverts_encode() {
    let payloads: Vec<Vec<u8>> = vec![
        vec![],
        vec![0],
        b"{\"cmd\":\"DISPATCH\"}".to_vec(),
        (0..=255u8).collect(),
        vec![0xAB; 70_000],
    ];
    for op in [0u32, 1, 2, 3, 4, 5, 0x0100, 0xFFFF_FFFF] {
        for payload in &payloads {
            let bytes = encode_frame(op, payload);
            assert_eq!(
                decode_frame(&bytes),
                Some(Frame { opcode: op, payload: payload.clone() })
            );
        }
    }
}

#[test]
fn decode_refuses_a_short_header() {
    assert_eq!(decode_frame(&[]), None);
    assert_eq!(decode_frame(&[1, 0, 0, 0, 0, 0, 0]), None);
}

#[test]
fn decode_refuses_a_payload_of_the_wrong_length() {
    assert_eq!(decode_frame(&[1, 0, 0, 0, 2, 0, 0, 0, b'h']), None);
    assert_eq!(decode_frame(&[1, 0, 0, 0, 2, 0, 0, 0, b'h', b'i', b'!']), None);
    assert_eq!(decode_frame(&[1, 0, 0, 0, 0, 0, 0, 1]), None);
}
