use me_rpc::errors::{FramingFault, MeError};
use me_rpc::frame::{build_rpc_frame, frame_total_len, parse_frame};

/// Bitwise reference CRC-32 (IEEE), independent of the library's checksum
/// routine.
fn crc32_ref(data: &[u8]) -> u32 {
    let mut crc: u32 = 0xFFFF_FFFF;
    for &b in data {
        crc ^= b as u32;
        for _ in 0..8 {
            let mask = (crc & 1).wrapping_neg();
            crc = (crc >> 1) ^ (0xEDB8_8320 & mask);
        }
    }
    !crc
}

#[test]
fn crc32_reference_check_value() {
    assert_eq!(crc32_ref(b"123456789"), 0xCBF4_3926);
}

#[test]
fn frame_bytes_for_payload_01020304() {
    let payload = vec![1u8, 2, 3, 4];
    let f = build_rpc_frame(0, &payload);
    assert_eq!(f.len(), 16);
    assert_eq!(&f[0..4], &[0x10, 0x00, 0x00, 0x00]);
    assert_eq!(&f[4..8], &[0x00, 0x00, 0x00, 0x00]);
    assert_eq!(&f[8..12], &[0x01, 0x02, 0x03, 0x04]);
    let expected_crc = crc32_ref(&f[0..12]);
    assert_eq!(&f[12..16], &expected_crc.to_le_bytes());
}

#[test]
fn frame_negative_seq_uses_twos_complement() {
    let payload = vec![0xAAu8];
    let f = build_rpc_frame(-2, &payload);
    assert_eq!(&f[4..8], &[0xFE, 0xFF, 0xFF, 0xFF]);
    let expected_crc = crc32_ref(&f[0..9]);
    assert_eq!(&f[9..13], &expected_crc.to_le_bytes());
}

#[test]
fn frame_round_trip() {
    let payload: Vec<u8> = (0u8..=255).collect();
    let f = build_rpc_frame(7, &payload);
    let (seq, p) = parse_frame(&f).expect("well-built frame must parse");
    assert_eq!(seq, 7);
    assert_eq!(p, payload);
}

#[test]
fn frame_round_trip_empty_payload() {
    let payload: Vec<u8> = Vec::new();
    let f = build_rpc_frame(-1, &payload);
    assert_eq!(f.len(), 12);
    let (seq, p) = parse_frame(&f).expect("minimal frame must parse");
    assert_eq!(seq, -1);
    assert!(p.is_empty());
}

#[test]
fn tampering_any_byte_fails_crc() {
    let payload = vec![5u8, 6, 7, 8, 9];
    let good = build_rpc_frame(3, &payload);
    for i in 4..good.len() {
        let mut bad = good.clone();
        bad[i] ^= 0x01;
        let r = parse_frame(&bad);
        assert_eq!(
            r,
            Err(MeError::Framing(FramingFault::CrcMismatch)),
            "flipping byte {} must fail the checksum",
            i
        );
    }
}

#[test]
fn tampering_length_fails_parse() {
    let payload = vec![5u8, 6, 7, 8, 9];
    let good = build_rpc_frame(3, &payload);
    let mut bad = good.clone();
    bad[0] ^= 0x01;
    assert!(parse_frame(&bad).is_err());
}

#[test]
fn parse_rejects_short_input() {
    let b = vec![1u8, 2, 3];
    assert_eq!(
        parse_frame(&b),
        Err(MeError::Framing(FramingFault::Truncated))
    );
}

#[test]
fn parse_rejects_length_out_of_range() {
    let mut b = vec![0u8; 16];
    b[0] = 11;
    assert_eq!(
        parse_frame(&b),
        Err(MeError::Framing(FramingFault::LengthOutOfRange))
    );
}

#[test]
fn parse_rejects_declared_length_mismatch() {
    let payload = vec![1u8, 2, 3, 4];
    let mut f = build_rpc_frame(0, &payload);
    f.push(0);
    assert_eq!(
        parse_frame(&f),
        Err(MeError::Framing(FramingFault::Truncated))
    );
}

#[test]
fn frame_total_len_bounds() {
    assert_eq!(frame_total_len(12), Ok(12));
    assert_eq!(frame_total_len(0x0100_0000), Ok(0x0100_0000));
    assert_eq!(
        frame_total_len(11),
        Err(MeError::Framing(FramingFault::LengthOutOfRange))
    );
    assert_eq!(
        frame_total_len(4),
        Err(MeError::Framing(FramingFault::LengthOutOfRange))
    );
    assert_eq!(
        frame_total_len(0x0100_0001),
        Err(MeError::Framing(FramingFault::LengthOutOfRange))
    );
}
