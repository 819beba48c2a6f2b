use me_rpc::cbc::{cbc_decrypt_inplace, cbc_encrypt_padded, CbcStream};

fn zero_key() -> Vec<u8> {
    vec![0u8; 32]
}

fn zero_iv() -> Vec<u8> {
    vec![0u8; 16]
}

#[test]
fn aes256_zero_vector() {
    // AES-256 of an all-zero block under an all-zero key; with a zero IV
    // the single CBC block is exactly that.
    let (ct, new_iv) = cbc_encrypt_padded(&zero_key(), &zero_iv(), &vec![0u8; 16]);
    let expected: Vec<u8> = vec![
        0xdc, 0x95, 0xc0, 0x78, 0xa2, 0x40, 0x89, 0x89, 0xad, 0x48, 0xa2, 0x14, 0x92, 0x84, 0x20,
        0x87,
    ];
    assert_eq!(ct, expected);
    assert_eq!(new_iv, expected);
}

#[test]
fn encrypt_then_decrypt_round_trip() {
    let key: Vec<u8> = (0u8..32).collect();
    let iv: Vec<u8> = (100u8..116).collect();
    let pt: Vec<u8> = (0u8..64).collect();
    let (mut ct, _) = cbc_encrypt_padded(&key, &iv, &pt);
    assert_eq!(ct.len(), 64);
    let _ = cbc_decrypt_inplace(&key, &iv, &mut ct);
    assert_eq!(ct, pt);
}

#[test]
fn padding_aligns_with_04_pattern() {
    let key: Vec<u8> = (0u8..32).collect();
    let iv: Vec<u8> = (1u8..17).collect();
    let pt: Vec<u8> = vec![0xAB; 20];
    let (mut ct, _) = cbc_encrypt_padded(&key, &iv, &pt);
    assert_eq!(ct.len(), 32);
    let _ = cbc_decrypt_inplace(&key, &iv, &mut ct);
    assert_eq!(&ct[0..20], &pt[..]);
    assert_eq!(&ct[20..32], &[4, 0, 0, 0, 4, 0, 0, 0, 4, 0, 0, 0]);
}

#[test]
fn cbc_chaining_concat_equals_sequential() {
    let key: Vec<u8> = (7u8..39).collect();
    let iv: Vec<u8> = (50u8..66).collect();
    let a: Vec<u8> = (0u8..32).collect();
    let b: Vec<u8> = (200u8..248).collect();
    let mut ab = a.clone();
    ab.extend_from_slice(&b);
    let (ct_whole, iv_whole) = cbc_encrypt_padded(&key, &iv, &ab);
    let (ct_a, iv_mid) = cbc_encrypt_padded(&key, &iv, &a);
    let (ct_b, iv_end) = cbc_encrypt_padded(&key, &iv_mid, &b);
    let mut seq = ct_a.clone();
    seq.extend_from_slice(&ct_b);
    assert_eq!(ct_whole, seq);
    assert_eq!(iv_whole, iv_end);
}

#[test]
fn streaming_decrypt_matches_one_shot() {
    let key: Vec<u8> = (3u8..35).collect();
    let iv: Vec<u8> = (90u8..106).collect();
    let pt: Vec<u8> = (0u8..=255).collect();
    let (ct, _) = cbc_encrypt_padded(&key, &iv, &pt);
    let mut whole = ct.clone();
    let _ = cbc_decrypt_inplace(&key, &iv, &mut whole);

    for chunk_len in [1usize, 3, 7, 16, 33, 256] {
        let mut stream = CbcStream::new(key.clone(), iv.clone());
        let mut out: Vec<u8> = Vec::new();
        for chunk in ct.chunks(chunk_len) {
            let piece = stream.absorb(&chunk.to_vec());
            out.extend_from_slice(&piece);
        }
        assert_eq!(out, whole, "chunk length {}", chunk_len);
    }
}

#[test]
fn stream_keeps_partial_block_back() {
    let key = zero_key();
    let iv = zero_iv();
    let mut stream = CbcStream::new(key, iv);
    let out = stream.absorb(&vec![1u8; 15]);
    assert!(out.is_empty());
    let out = stream.absorb(&vec![1u8; 1]);
    assert_eq!(out.len(), 16);
}

#[test]
fn empty_input_keeps_iv() {
    let key: Vec<u8> = (0u8..32).collect();
    let iv: Vec<u8> = (40u8..56).collect();
    let (ct, new_iv) = cbc_encrypt_padded(&key, &iv, &Vec::new());
    assert!(ct.is_empty());
    assert_eq!(new_iv, iv);
}
