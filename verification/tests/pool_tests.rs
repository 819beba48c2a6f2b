use me_rpc::addr::{IpOctets, SockAddr};
use me_rpc::cbc::CbcStream;
use me_rpc::consts::RPC_CLOSE_EXT;
use me_rpc::errors::MeError;
use me_rpc::pool::{build_close_payload, MePool};
use me_rpc::proxy_req::{build_proxy_req_payload, parse_proxy_req, proto_flags_for_tag, ProtoTag};
use me_rpc::writer::RpcWriter;

fn wkey(seed: u8) -> Vec<u8> {
    (seed..seed + 32).collect()
}

fn wiv(seed: u8) -> Vec<u8> {
    (seed..seed + 16).collect()
}

fn addr(last: u8, port: u16) -> SockAddr {
    SockAddr { ip: IpOctets::V4([10, 0, 0, last]), port }
}

#[test]
fn key_selector_reads_first_word() {
    let mut secret = vec![0xEFu8, 0xBE, 0xAD, 0xDE];
    secret.extend_from_slice(&[0u8; 28]);
    let pool = MePool::new(None, secret);
    assert_eq!(pool.key_selector(), 0xDEAD_BEEF);
    let short = MePool::new(None, vec![1, 2, 3]);
    assert_eq!(short.key_selector(), 0);
}

#[test]
fn empty_pool_is_an_error() {
    let pool = MePool::new(None, vec![0u8; 32]);
    assert_eq!(pool.connection_count(), 0);
    assert_eq!(pool.init_result(), Err(MeError::PoolEmpty));
    let mut pool = pool;
    assert!(pool.pick_writer().is_none());
}

#[test]
fn round_robin_walks_the_pool() {
    let mut pool = MePool::new(None, vec![0u8; 32]);
    for s in [0u8, 1, 2] {
        pool.add_writer(RpcWriter::new(wkey(s), wiv(s)));
    }
    assert_eq!(pool.init_result(), Ok(()));
    assert!(pool.init_target_met(3));
    assert!(!pool.init_target_met(4));
    let picks: Vec<usize> = (0..6).map(|_| pool.pick_writer().unwrap()).collect();
    assert_eq!(picks, vec![0, 1, 2, 0, 1, 2]);
}

#[test]
fn eviction_after_send_failure_leaves_two() {
    // Writers one, two and three; the second one's socket fails on send,
    // so it is evicted and the request is retried on the next writer.
    let mut pool = MePool::new(None, vec![0u8; 32]);
    for s in [0u8, 40, 80] {
        pool.add_writer(RpcWriter::new(wkey(s), wiv(s)));
    }
    let flags = proto_flags_for_tag(ProtoTag::Intermediate);
    let idx = pool.pick_writer().unwrap();
    assert_eq!(idx, 0);
    let idx = pool.pick_writer().unwrap();
    assert_eq!(idx, 1);
    let _doomed_bytes = pool.seal_proxy_req(idx, 1, &addr(1, 1), &addr(2, 2), &vec![1u8], flags);
    // the socket write of those bytes failed: evict and retry
    pool.evict_writer(idx);
    assert_eq!(pool.connection_count(), 2);
    let idx = pool.pick_writer().unwrap() % pool.connection_count();
    let _sent = pool.seal_proxy_req(idx, 1, &addr(1, 1), &addr(2, 2), &vec![1u8], flags);
    assert_eq!(pool.connection_count(), 2);
}

#[test]
fn sealed_proxy_req_matches_a_twin_writer() {
    let tag = vec![0xADu8; 8];
    let mut pool = MePool::new(Some(tag.clone()), vec![0u8; 32]);
    pool.add_writer(RpcWriter::new(wkey(5), wiv(5)));
    let flags = proto_flags_for_tag(ProtoTag::Abridged);
    let data: Vec<u8> = (0u8..40).collect();
    let sealed = pool.seal_proxy_req(0, 9, &addr(3, 333), &addr(4, 444), &data, flags);

    let mut twin = RpcWriter::new(wkey(5), wiv(5));
    let payload = build_proxy_req_payload(9, &addr(3, 333), &addr(4, 444), &data, Some(&tag), flags);
    let expected = twin.seal(&payload);
    assert_eq!(sealed, expected);
}

#[test]
fn sealed_close_decrypts_to_the_close_frame() {
    let mut pool = MePool::new(None, vec![0u8; 32]);
    pool.add_writer(RpcWriter::new(wkey(9), wiv(9)));
    let sealed = pool.seal_close(0, 123456789);
    let mut stream = CbcStream::new(wkey(9), wiv(9));
    let plain = stream.absorb(&sealed);
    let (seq, payload) = me_rpc::frame::parse_frame(&plain[0..plain.len()].to_vec())
        .or_else(|_| {
            // the sealed block is padded past the frame; parse the frame alone
            let fl = u32::from_le_bytes([plain[0], plain[1], plain[2], plain[3]]) as usize;
            me_rpc::frame::parse_frame(&plain[0..fl].to_vec())
        })
        .expect("close frame parses");
    assert_eq!(seq, 0);
    assert_eq!(payload, build_close_payload(123456789));
    assert_eq!(&payload[0..4], &RPC_CLOSE_EXT.to_le_bytes());
    assert_eq!(&payload[4..12], &123456789u64.to_le_bytes());
}

#[test]
fn close_unregisters_the_connection() {
    let mut pool = MePool::new(None, vec![0u8; 32]);
    pool.add_writer(RpcWriter::new(wkey(1), wiv(1)));
    let id = pool.registry.register();
    assert!(pool.registry.contains(id));
    let _bytes = pool.seal_close(0, id);
    pool.unregister_conn(id);
    assert!(!pool.registry.contains(id));
}

#[test]
fn writer_sequence_numbers_advance_per_writer() {
    let mut pool = MePool::new(None, vec![0u8; 32]);
    pool.add_writer(RpcWriter::new(wkey(0), wiv(0)));
    pool.add_writer(RpcWriter::new(wkey(32), wiv(32)));
    let flags = proto_flags_for_tag(ProtoTag::Intermediate);
    let _ = pool.seal_proxy_req(0, 1, &addr(1, 1), &addr(2, 2), &vec![0u8], flags);
    let _ = pool.seal_proxy_req(0, 1, &addr(1, 1), &addr(2, 2), &vec![0u8], flags);
    let _ = pool.seal_proxy_req(1, 1, &addr(1, 1), &addr(2, 2), &vec![0u8], flags);
    assert_eq!(pool.writers[0].seq_no, 2);
    assert_eq!(pool.writers[1].seq_no, 1);
}

#[test]
fn reconnects_needed_counts_the_shortfall() {
    let mut pool = MePool::new(None, vec![0u8; 32]);
    assert_eq!(pool.reconnects_needed(2), 2);
    pool.add_writer(RpcWriter::new(wkey(0), wiv(0)));
    assert_eq!(pool.reconnects_needed(2), 1);
    pool.add_writer(RpcWriter::new(wkey(32), wiv(32)));
    assert_eq!(pool.reconnects_needed(2), 0);
    assert_eq!(pool.reconnects_needed(1), 0);
}

#[test]
fn proxy_req_via_pool_decodes_to_its_fields() {
    let tag = vec![1u8, 2, 3, 4];
    let mut pool = MePool::new(Some(tag.clone()), vec![0u8; 32]);
    pool.add_writer(RpcWriter::new(wkey(7), wiv(7)));
    let flags = proto_flags_for_tag(ProtoTag::Secure);
    let data = vec![0xCD; 24];
    let sealed = pool.seal_proxy_req(0, 555, &addr(1, 10), &addr(2, 20), &data, flags);
    let mut stream = CbcStream::new(wkey(7), wiv(7));
    let plain = stream.absorb(&sealed);
    let fl = u32::from_le_bytes([plain[0], plain[1], plain[2], plain[3]]) as usize;
    let (_, payload) = me_rpc::frame::parse_frame(&plain[0..fl].to_vec()).expect("frame parses");
    let req = parse_proxy_req(&payload).expect("payload decodes");
    assert_eq!(req.conn_id, 555);
    assert_eq!(req.tag.as_deref(), Some(&tag[..]));
    assert_eq!(req.data, data);
}
