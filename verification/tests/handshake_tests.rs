use me_rpc::cbc::{cbc_encrypt_padded, CbcStream};
use me_rpc::consts::{
    RPC_CRYPTO_AES, RPC_HANDSHAKE, RPC_HANDSHAKE_ERROR, RPC_PROXY_ANS, SEQ_NONCE,
};
use me_rpc::errors::{HandshakeFault, MeError};
use me_rpc::frame::build_rpc_frame;
use me_rpc::handshake::{
    build_handshake_payload, build_nonce_frame, build_nonce_payload, framing_to_handshake,
    parse_nonce_payload, process_nonce_reply, HsProgress, HsRecv,
};
use me_rpc::kdf::{derive_middleproxy_keys, KdfRole};
use me_rpc::reader::{ReaderAction, ReaderState};

fn rkey() -> Vec<u8> {
    (2u8..34).collect()
}

fn riv() -> Vec<u8> {
    (70u8..86).collect()
}

#[test]
fn nonce_payload_literal_bytes() {
    let nonce: Vec<u8> = (0u8..16).collect();
    let p = build_nonce_payload(0xDEAD_BEEF, 0x0102_0304, &nonce);
    let mut expected: Vec<u8> = vec![0xAA, 0x8F, 0xCF, 0x55];
    expected.extend_from_slice(&[0xEF, 0xBE, 0xAD, 0xDE]);
    expected.extend_from_slice(&[0x51, 0xE0, 0xE5, 0x89]);
    expected.extend_from_slice(&[0x04, 0x03, 0x02, 0x01]);
    expected.extend_from_slice(&[
        0x00, 0x01, 0x02, 0x03, 0x04, 0x05, 0x06, 0x07, 0x08, 0x09, 0x0A, 0x0B, 0x0C, 0x0D, 0x0E,
        0x0F,
    ]);
    assert_eq!(p, expected);
}

#[test]
fn nonce_frame_carries_reserved_seq() {
    let nonce = vec![9u8; 16];
    let f = build_nonce_frame(1, 2, &nonce);
    let (seq, payload) = me_rpc::frame::parse_frame(&f).expect("nonce frame parses");
    assert_eq!(seq, SEQ_NONCE);
    assert_eq!(payload, build_nonce_payload(1, 2, &nonce));
}

#[test]
fn nonce_payload_round_trip() {
    let nonce: Vec<u8> = (40u8..56).collect();
    let p = build_nonce_payload(0x11, 0x2222, &nonce);
    let (schema, ts, n) = parse_nonce_payload(&p).expect("built payload parses");
    assert_eq!(schema, RPC_CRYPTO_AES);
    assert_eq!(ts, 0x2222);
    assert_eq!(n, nonce);
}

#[test]
fn nonce_payload_rejects_short_and_wrong_opcode() {
    let short = vec![0u8; 31];
    assert_eq!(
        parse_nonce_payload(&short),
        Err(MeError::Handshake(HandshakeFault::ShortPayload))
    );
    let mut wrong = build_nonce_payload(1, 2, &vec![0u8; 16]);
    wrong[0] ^= 0xFF;
    assert_eq!(
        parse_nonce_payload(&wrong),
        Err(MeError::Handshake(HandshakeFault::WrongOpcode))
    );
}

#[test]
fn nonce_reply_rejects_wrong_seq_and_schema() {
    let p = build_nonce_payload(1, 2, &vec![3u8; 16]);
    assert_eq!(
        process_nonce_reply(0, &p),
        Err(MeError::Handshake(HandshakeFault::WrongSeq))
    );
    let mut bad_schema = p.clone();
    bad_schema[8] ^= 0xFF;
    assert_eq!(
        process_nonce_reply(SEQ_NONCE, &bad_schema),
        Err(MeError::Handshake(HandshakeFault::WrongSchema))
    );
    let (ts, sn) = process_nonce_reply(SEQ_NONCE, &p).expect("good reply accepted");
    assert_eq!(ts, 2);
    assert_eq!(sn, vec![3u8; 16]);
}

#[test]
fn handshake_payload_layout() {
    let p = build_handshake_payload(0x0A00_0001, 443, 0x1234, 0x5F00_0000, 0x0A00_0002, 8888);
    assert_eq!(p.len(), 32);
    assert_eq!(&p[0..4], &RPC_HANDSHAKE.to_le_bytes());
    assert_eq!(&p[4..8], &[0, 0, 0, 0]);
    assert_eq!(&p[8..12], &0x0A00_0001u32.to_le_bytes());
    assert_eq!(&p[12..14], &443u16.to_le_bytes());
    assert_eq!(&p[14..16], &0x1234u16.to_le_bytes());
    assert_eq!(&p[16..20], &0x5F00_0000u32.to_le_bytes());
    assert_eq!(&p[20..24], &0x0A00_0002u32.to_le_bytes());
    assert_eq!(&p[24..26], &8888u16.to_le_bytes());
    assert_eq!(&p[26..32], &[0, 0, 0, 0, 0, 0]);
}

#[test]
fn handshake_rejection_surfaces_the_error_code() {
    let mut body = RPC_HANDSHAKE_ERROR.to_le_bytes().to_vec();
    body.extend_from_slice(&(-404i32).to_le_bytes());
    let frame = build_rpc_frame(-1, &body);
    let (wire, _) = cbc_encrypt_padded(&rkey(), &riv(), &frame);
    let mut hs = HsRecv::new(rkey(), riv());
    assert_eq!(
        hs.feed(&wire),
        Err(MeError::Handshake(HandshakeFault::Rejected(-404)))
    );
}

#[test]
fn handshake_acceptance_over_partial_reads() {
    let body = RPC_HANDSHAKE.to_le_bytes().to_vec();
    let mut payload = body;
    payload.extend_from_slice(&[0u8; 28]);
    let frame = build_rpc_frame(-1, &payload);
    let (wire, _) = cbc_encrypt_padded(&rkey(), &riv(), &frame);
    let mut hs = HsRecv::new(rkey(), riv());
    let mut done = false;
    for b in wire {
        match hs.feed(&vec![b]).expect("well-formed reply") {
            HsProgress::Done => {
                done = true;
                break;
            }
            HsProgress::NeedMore => {}
        }
    }
    assert!(done);
}

#[test]
fn handshake_wrong_opcode_fails() {
    let mut payload = 0x0BAD_CAFEu32.to_le_bytes().to_vec();
    payload.extend_from_slice(&[0u8; 12]);
    let frame = build_rpc_frame(-1, &payload);
    let (wire, _) = cbc_encrypt_padded(&rkey(), &riv(), &frame);
    let mut hs = HsRecv::new(rkey(), riv());
    assert_eq!(
        hs.feed(&wire),
        Err(MeError::Handshake(HandshakeFault::WrongOpcode))
    );
}

#[test]
fn residue_after_handshake_carries_into_reader() {
    // The peer sends the handshake frame and the first data frame in one
    // burst; whatever the handshake receiver has not consumed must reach
    // the steady-state reader intact.
    let mut hs_payload = RPC_HANDSHAKE.to_le_bytes().to_vec();
    hs_payload.extend_from_slice(&[0u8; 28]);
    let hs_frame = build_rpc_frame(-1, &hs_payload);

    let mut ans_payload = RPC_PROXY_ANS.to_le_bytes().to_vec();
    ans_payload.extend_from_slice(&0u32.to_le_bytes());
    ans_payload.extend_from_slice(&3u64.to_le_bytes());
    ans_payload.extend_from_slice(b"carried");
    let ans_frame = build_rpc_frame(0, &ans_payload);

    let mut plain = hs_frame;
    plain.extend_from_slice(&ans_frame);
    let (wire, _) = cbc_encrypt_padded(&rkey(), &riv(), &plain);

    let mut hs = HsRecv::new(rkey(), riv());
    assert_eq!(hs.feed(&wire), Ok(HsProgress::Done));
    let mut reader = ReaderState::from_handshake(hs);
    let actions = reader.feed(&Vec::new()).expect("carried frame parses");
    assert_eq!(actions.len(), 1);
    assert!(matches!(&actions[0], ReaderAction::Data(3, d) if d == b"carried"));
}

#[test]
fn noop_padding_words_are_skipped() {
    let mut payload = RPC_HANDSHAKE.to_le_bytes().to_vec();
    payload.extend_from_slice(&[0u8; 28]);
    let frame = build_rpc_frame(-1, &payload);
    let mut plain = 4u32.to_le_bytes().to_vec();
    plain.extend_from_slice(&4u32.to_le_bytes());
    plain.extend_from_slice(&frame);
    let (wire, _) = cbc_encrypt_padded(&rkey(), &riv(), &plain);
    let mut hs = HsRecv::new(rkey(), riv());
    assert_eq!(hs.feed(&wire), Ok(HsProgress::Done));
}

#[test]
fn framing_errors_become_handshake_faults() {
    let e = framing_to_handshake(MeError::Framing(me_rpc::errors::FramingFault::CrcMismatch));
    assert_eq!(
        e,
        MeError::Handshake(HandshakeFault::BadFrame(
            me_rpc::errors::FramingFault::CrcMismatch
        ))
    );
    assert_eq!(framing_to_handshake(MeError::PoolEmpty), MeError::PoolEmpty);
}

#[test]
fn derived_keys_are_role_bound_and_well_formed() {
    let server_nonce: Vec<u8> = (0u8..16).collect();
    let client_nonce: Vec<u8> = (16u8..32).collect();
    let secret: Vec<u8> = (0u8..64).collect();
    let (wk, wi) = derive_middleproxy_keys(
        &server_nonce,
        &client_nonce,
        7,
        0x0A0A0A0A,
        1025,
        KdfRole::Client,
        0x0B0B0B0B,
        443,
        &secret,
    );
    let (rk, ri) = derive_middleproxy_keys(
        &server_nonce,
        &client_nonce,
        7,
        0x0A0A0A0A,
        1025,
        KdfRole::Server,
        0x0B0B0B0B,
        443,
        &secret,
    );
    assert_eq!(wk.len(), 32);
    assert_eq!(wi.len(), 16);
    assert_eq!(rk.len(), 32);
    assert_eq!(ri.len(), 16);
    assert_ne!(wk, rk);
    assert_ne!(wi, ri);
    // The digests really digest: the key must not open with the raw
    // buffer bytes it was derived from.
    assert_ne!(&wk[0..12], &client_nonce[0..12]);
    // Same inputs, same keys.
    let (wk2, wi2) = derive_middleproxy_keys(
        &server_nonce,
        &client_nonce,
        7,
        0x0A0A0A0A,
        1025,
        KdfRole::Client,
        0x0B0B0B0B,
        443,
        &secret,
    );
    assert_eq!(wk, wk2);
    assert_eq!(wi, wi2);
}

#[test]
fn derived_keys_match_the_digest_schedule() {
    // The key schedule is md5(buf[1..])[0..12] followed by sha1(buf), and
    // the IV is md5(buf[2..]); recompute it here from the digests.
    let server_nonce: Vec<u8> = vec![1u8; 16];
    let client_nonce: Vec<u8> = vec![2u8; 16];
    let secret: Vec<u8> = vec![3u8; 32];
    let mut buf: Vec<u8> = Vec::new();
    buf.extend_from_slice(&server_nonce);
    buf.extend_from_slice(&client_nonce);
    buf.extend_from_slice(&9u32.to_le_bytes());
    buf.extend_from_slice(&0x01020304u32.to_le_bytes());
    buf.extend_from_slice(&4000u16.to_le_bytes());
    buf.extend_from_slice(b"CLIENT");
    buf.extend_from_slice(&0x05060708u32.to_le_bytes());
    buf.extend_from_slice(&8443u16.to_le_bytes());
    buf.extend_from_slice(&secret);
    buf.extend_from_slice(&server_nonce);
    buf.extend_from_slice(&client_nonce);
    let md5_tail1 = <md5::Md5 as md5::Digest>::digest(&buf[1..]);
    let sha1_whole = <sha1::Sha1 as sha1::Digest>::digest(&buf[..]);
    let md5_tail2 = <md5::Md5 as md5::Digest>::digest(&buf[2..]);
    let mut expected_key = md5_tail1[0..12].to_vec();
    expected_key.extend_from_slice(&sha1_whole);
    let (k, iv) = derive_middleproxy_keys(
        &server_nonce,
        &client_nonce,
        9,
        0x01020304,
        4000,
        KdfRole::Client,
        0x05060708,
        8443,
        &secret,
    );
    assert_eq!(k, expected_key);
    assert_eq!(iv, md5_tail2.to_vec());
}

#[test]
fn sealed_handshake_decrypts_to_the_padded_frame() {
    let wk: Vec<u8> = (5u8..37).collect();
    let wi: Vec<u8> = (80u8..96).collect();
    let (wire, next_iv) =
        me_rpc::handshake::seal_handshake_frame(&wk, &wi, 1, 2, 3, 4, 5, 6);
    assert_eq!(wire.len() % 16, 0);
    assert_eq!(next_iv.len(), 16);
    let mut stream = CbcStream::new(wk, wi);
    let plain = stream.absorb(&wire);
    let expected_payload = build_handshake_payload(1, 2, 3, 4, 5, 6);
    let expected_frame = build_rpc_frame(-1, &expected_payload);
    assert_eq!(&plain[0..expected_frame.len()], &expected_frame[..]);
}
