use base64::Engine;
use mcumgr_toolkit::crc16::crc16;
use mcumgr_toolkit::framing::{decode_packet, encode_packet, frame_roundtrip};

fn crc_of(packet: &[u8]) -> u16 {
    crc16(packet)
}

#[test]
fn framing_single_line() {
    // the framing scenario: an eight-byte packet travels as exactly one line
    let packet: Vec<u8> = vec![0x00, 0x00, 0x00, 0x01, 0x00, 0x00, 0x00, 0x00];
    let wire = encode_packet(&packet);

    assert_eq!(wire[0], 0x06);
    assert_eq!(wire[1], 0x09);
    assert_eq!(*wire.last().unwrap(), 0x0a);
    // exactly one line
    assert_eq!(wire.iter().filter(|b| **b == 0x0a).count(), 1);

    let body_b64 = &wire[2..wire.len() - 1];
    let body = base64::engine::general_purpose::STANDARD
        .decode(body_b64)
        .unwrap();
    let crc = crc_of(&packet);
    // the length prefix counts the packet and the two CRC bytes
    let mut expected = vec![0x00, 0x0a];
    expected.extend_from_slice(&packet);
    expected.push((crc >> 8) as u8);
    expected.push((crc & 0xff) as u8);
    assert_eq!(body, expected);
}

#[test]
fn framing_roundtrip_small() {
    let packet: Vec<u8> = vec![1, 2, 3, 4, 5, 6, 7, 8, 9];
    let restored = frame_roundtrip(&packet);
    assert_eq!(restored, packet);
}

#[test]
fn framing_roundtrip_multi_line() {
    // larger than one 93-byte record: continuation records appear
    let packet: Vec<u8> = (0..=255u8).cycle().take(1000).collect();
    let wire = encode_packet(&packet);
    let lines: Vec<&[u8]> = wire.split(|b| *b == 0x0a).filter(|l| !l.is_empty()).collect();
    assert!(lines.len() > 1);
    assert_eq!(lines[0][0], 0x06);
    assert_eq!(lines[0][1], 0x09);
    for line in &lines[1..] {
        assert_eq!(line[0], 0x04);
        assert_eq!(line[1], 0x14);
        assert!(line.len() <= 127);
    }
    let restored = decode_packet(&wire).unwrap();
    assert_eq!(restored, packet);
}

#[test]
fn framing_tolerates_noise_lines() {
    let packet: Vec<u8> = vec![9, 8, 7, 6, 5];
    let wire = encode_packet(&packet);
    let mut noisy: Vec<u8> = Vec::new();
    noisy.extend_from_slice(b"boot: device log spam\n");
    noisy.extend_from_slice(&wire);
    assert_eq!(decode_packet(&noisy).unwrap(), packet);
}

#[test]
fn crc_detection_bit_flips() {
    // flipping any single bit between the start marker and the terminator
    // makes decoding fail
    let packet: Vec<u8> = vec![0x10, 0x20, 0x30, 0x40, 0x55, 0xaa];
    let wire = encode_packet(&packet);
    let body_start = 2;
    let body_end = wire.len() - 1;
    for pos in body_start..body_end {
        for bit in 0..8 {
            let mut flipped = wire.clone();
            flipped[pos] ^= 1u8 << bit;
            assert!(
                decode_packet(&flipped).is_none(),
                "bit {} of byte {} slipped through",
                bit,
                pos
            );
        }
    }
}

#[test]
fn crc16_xmodem_vector() {
    // the well-known check value of CRC-16/XMODEM
    assert_eq!(crc16(b"123456789"), 0x31c3);
}
