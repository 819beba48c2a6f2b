//! The `RPC_PROXY_REQ` payload: how a client byte block travels to the
//! middle proxy, and the decoder that recovers every field from it.
//!
//! Layout: `opcode || flags || conn_id || client_addr_v6(16) || client_port(u32)
//! || our_addr_v6(16) || our_port(u32) || [ extra_len || TL_PROXY_TAG ||
//! tl_string(tag) ]? || data`, all integers little-endian.  The extras
//! section is present iff `flags & 12 != 0`.

use vstd::prelude::*;

use crate::addr::{
    ip_wire_bytes, is_mapped_v6, mapped_v6, push_ip_wire_bytes, IpOctets, SockAddr,
};
use crate::bytes_util::{vec_copy_range, vec_push_all};
use crate::consts::{
    RPC_FLAG_ABRIDGED, RPC_FLAG_EXTMODE2, RPC_FLAG_HAS_AD_TAG, RPC_FLAG_INTERMEDIATE,
    RPC_FLAG_MAGIC, RPC_FLAG_PAD, RPC_PROXY_REQ, TL_PROXY_TAG,
};
use crate::errors::{FramingFault, MeError};
use crate::le::{
    le_to_u32, le_to_u64, lemma_u32_le_round_trip, lemma_u64_le_round_trip, push_u32_le,
    push_u64_le, read_u32_le, read_u64_le, u32_le, u64_le,
};

verus! {

/// The client-facing MTProto transport a session spoke.
#[derive(Clone, Copy, Debug, PartialEq, Eq, Structural)]
pub enum ProtoTag {
    Abridged,
    Intermediate,
    Secure,
}

/// The `RPC_PROXY_REQ` flag word for a transport tag: the ad-tag, magic
/// and extended-extras bits, plus the transport selector.
pub open spec fn proto_flags_spec(tag: ProtoTag) -> u32 {
    match tag {
        ProtoTag::Abridged => RPC_FLAG_HAS_AD_TAG | RPC_FLAG_MAGIC | RPC_FLAG_EXTMODE2
            | RPC_FLAG_ABRIDGED,
        ProtoTag::Intermediate => RPC_FLAG_HAS_AD_TAG | RPC_FLAG_MAGIC | RPC_FLAG_EXTMODE2
            | RPC_FLAG_INTERMEDIATE,
        ProtoTag::Secure => RPC_FLAG_HAS_AD_TAG | RPC_FLAG_MAGIC | RPC_FLAG_EXTMODE2
            | RPC_FLAG_PAD | RPC_FLAG_INTERMEDIATE,
    }
}

/// Map a transport tag to its `RPC_PROXY_REQ` flag word.
pub fn proto_flags_for_tag(tag: ProtoTag) -> (r: u32)
    ensures
        r == proto_flags_spec(tag),
        r & 12 != 0,
{
    let base = RPC_FLAG_HAS_AD_TAG | RPC_FLAG_MAGIC | RPC_FLAG_EXTMODE2;
    let r = match tag {
        ProtoTag::Abridged => base | RPC_FLAG_ABRIDGED,
        ProtoTag::Intermediate => base | RPC_FLAG_INTERMEDIATE,
        ProtoTag::Secure => base | RPC_FLAG_PAD | RPC_FLAG_INTERMEDIATE,
    };
    proof {
        assert(((0x8u32 | 0x1000 | 0x20000) | 0x40000000) & 12 != 0) by (bit_vector);
        assert(((0x8u32 | 0x1000 | 0x20000) | 0x20000000) & 12 != 0) by (bit_vector);
        assert(((0x8u32 | 0x1000 | 0x20000) | 0x8000000 | 0x20000000) & 12 != 0) by (bit_vector);
    }
    r
}

/// `n` zero bytes.
pub open spec fn zeros(n: nat) -> Seq<u8> {
    Seq::new(n, |i: int| 0u8)
}

/// TL encoding of a byte string: a one-byte length (or `0xFE` and a
/// three-byte length) before the bytes, zero-padded to a four-byte boundary.
pub open spec fn tl_string(tag: Seq<u8>) -> Seq<u8> {
    if tag.len() < 254 {
        seq![tag.len() as u8] + tag + zeros((((4 - ((1 + tag.len()) as int % 4)) % 4) as nat))
    } else {
        seq![0xfeu8] + u32_le(tag.len() as u32).take(3) + tag + zeros(
            (((4 - (tag.len() as int % 4)) % 4) as nat),
        )
    }
}

/// The extras section: present iff `flags & 12 != 0`; carries the TL-coded
/// tag when there is one, preceded by the byte length of what follows the
/// length word itself.
pub open spec fn proxy_req_extras(flags: u32, tag: Option<Seq<u8>>) -> Seq<u8> {
    if flags & 12 != 0 {
        match tag {
            Some(t) => u32_le((4 + tl_string(t).len()) as u32) + u32_le(TL_PROXY_TAG) + tl_string(
                t,
            ),
            None => u32_le(0),
        }
    } else {
        Seq::empty()
    }
}

/// The whole `RPC_PROXY_REQ` payload.
pub open spec fn proxy_req_payload(
    conn_id: u64,
    client: SockAddr,
    our: SockAddr,
    data: Seq<u8>,
    tag: Option<Seq<u8>>,
    flags: u32,
) -> Seq<u8> {
    u32_le(RPC_PROXY_REQ) + u32_le(flags) + u64_le(conn_id) + ip_wire_bytes(client.ip) + u32_le(
        client.port as u32,
    ) + ip_wire_bytes(our.ip) + u32_le(our.port as u32) + proxy_req_extras(flags, tag) + data
}

/// TL-encode `tag`.
pub fn build_tl_string(tag: &Vec<u8>) -> (r: Vec<u8>)
    requires
        tag@.len() < 0x1000000,
    ensures
        r@ == tl_string(tag@),
{
    let mut r: Vec<u8> = Vec::new();
    let n = tag.len();
    if n < 254 {
        r.push(n as u8);
        vec_push_all(&mut r, tag.as_slice());
        let pad: usize = (4 - ((1 + n) % 4)) % 4;
        let mut i: usize = 0;
        while i < pad
            invariant
                i <= pad,
                r@ == seq![n as u8] + tag@ + zeros(i as nat),
            decreases pad - i,
        {
            r.push(0);
            i = i + 1;
            assert(r@ =~= seq![(n as u8)] + tag@ + zeros(i as nat));
        }
        assert(r@ =~= tl_string(tag@));
    } else {
        r.push(0xfe);
        r.push(#[verifier::truncate] ((n & 0xff) as u8));
        r.push(#[verifier::truncate] (((n >> 8) & 0xff) as u8));
        r.push(#[verifier::truncate] (((n >> 16) & 0xff) as u8));
        assert(r@ =~= seq![0xfeu8] + u32_le(n as u32).take(3)) by {
            assert((n as u32) & 0xff == (n & 0xff) as u32) by (bit_vector)
                requires
                    n < 0x1000000usize,
            ;
            assert(((n as u32) >> 8) & 0xff == ((n >> 8) & 0xff) as u32) by (bit_vector)
                requires
                    n < 0x1000000usize,
            ;
            assert(((n as u32) >> 16) & 0xff == ((n >> 16) & 0xff) as u32) by (bit_vector)
                requires
                    n < 0x1000000usize,
            ;
        }
        vec_push_all(&mut r, tag.as_slice());
        let pad: usize = (4 - (n % 4)) % 4;
        let before = Ghost(r@);
        let mut i: usize = 0;
        while i < pad
            invariant
                i <= pad,
                r@ == before@ + zeros(i as nat),
            decreases pad - i,
        {
            r.push(0);
            i = i + 1;
            assert(r@ =~= before@ + zeros(i as nat));
        }
        assert(r@ =~= tl_string(tag@));
    }
    r
}

/// What a proxy-request payload holds, with every field a plain value.
pub struct ProxyReqView {
    pub flags: u32,
    pub conn_id: u64,
    pub client_ip: Seq<u8>,
    pub client_port: u16,
    pub our_ip: Seq<u8>,
    pub our_port: u16,
    pub tag: Option<Seq<u8>>,
    pub data: Seq<u8>,
}

/// Decode one TL byte string at the head of `b`: the string and how many
/// bytes its encoding occupies, padding included.
pub open spec fn tl_parse(b: Seq<u8>) -> Option<(Seq<u8>, int)> {
    if b.len() < 1 {
        None
    } else if b[0] < 254 {
        let l = b[0] as int;
        let used = 1 + l + ((4 - ((1 + l) % 4)) % 4);
        if used <= b.len() {
            Some((b.subrange(1, 1 + l), used))
        } else {
            None
        }
    } else if b[0] == 254 {
        if b.len() < 4 {
            None
        } else {
            let l = (b[1] as int) + 256 * (b[2] as int) + 65536 * (b[3] as int);
            let used = 4 + l + ((4 - (l % 4)) % 4);
            if used <= b.len() {
                Some((b.subrange(4, 4 + l), used))
            } else {
                None
            }
        }
    } else {
        None
    }
}

/// Decode a proxy-request payload, or nothing where the bytes do not form
/// one: wrong opcode, too short, a port outside 16 bits, or a malformed
/// extras section.
pub open spec fn parse_proxy_req_spec(b: Seq<u8>) -> Option<ProxyReqView> {
    if b.len() < 56 {
        None
    } else if le_to_u32(b) != RPC_PROXY_REQ {
        None
    } else {
        let flags = le_to_u32(b.skip(4));
        let cp = le_to_u32(b.skip(32));
        let op = le_to_u32(b.skip(52));
        if cp >= 0x10000 || op >= 0x10000 {
            None
        } else {
            let head = (ProxyReqView {
                flags,
                conn_id: le_to_u64(b.skip(8)),
                client_ip: b.subrange(16, 32),
                client_port: cp as u16,
                our_ip: b.subrange(36, 52),
                our_port: op as u16,
                tag: None,
                data: Seq::empty(),
            });
            if flags & 12 == 0 {
                Some((ProxyReqView { data: b.skip(56), ..head }))
            } else if b.len() < 60 {
                None
            } else {
                let el = le_to_u32(b.skip(56)) as int;
                if 60 + el > b.len() {
                    None
                } else if el == 0 {
                    Some((ProxyReqView { data: b.skip(60), ..head }))
                } else if el < 8 {
                    None
                } else if le_to_u32(b.skip(60)) != TL_PROXY_TAG {
                    None
                } else {
                    match tl_parse(b.subrange(64, 60 + el)) {
                        Some((t, used)) => if used == el - 4 {
                            Some(
                                (ProxyReqView { tag: Some(t), data: b.skip(60 + el), ..head }),
                            )
                        } else {
                            None
                        },
                        None => None,
                    }
                }
            }
        }
    }
}

/// A decoded proxy request.
pub struct ProxyReq {
    pub flags: u32,
    pub conn_id: u64,
    pub client: SockAddr,
    pub our: SockAddr,
    pub tag: Option<Vec<u8>>,
    pub data: Vec<u8>,
}

/// Read the 16 address bytes at `at`, recovering an IPv4 address from the
/// IPv4-mapped form.
fn parse_ip16(b: &Vec<u8>, at: usize) -> (r: IpOctets)
    requires
        at + 16 <= b@.len(),
    ensures
        ip_wire_bytes(r) == b@.subrange(at as int, at as int + 16),
        (r matches IpOctets::V4(_)) <==> is_mapped_v6(b@.subrange(at as int, at as int + 16)),
{
    let n = b.len();
    let w = Ghost(b@.subrange(at as int, at as int + 16));
    assert(forall|i: int| 0 <= i < 16 ==> w@[i] == b@[at as int + i]);
    let mut mapped = b[at + 10] == 0xff && b[at + 11] == 0xff;
    let mut i: usize = 0;
    while i < 10
        invariant
            i <= 10,
            at + 16 <= b@.len(),
            n == b@.len(),
            w@ == b@.subrange(at as int, at as int + 16),
            mapped == (w@[10] == 0xff && w@[11] == 0xff && forall|j: int| 0 <= j < i ==> w@[j] == 0),
        decreases 10 - i,
    {
        assert(w@[i as int] == b@[at as int + i]);
        if b[at + i] != 0 {
            mapped = false;
        }
        i = i + 1;
    }
    if mapped {
        let oct = [b[at + 12], b[at + 13], b[at + 14], b[at + 15]];
        assert(mapped_v6(oct@) =~= w@);
        IpOctets::V4(oct)
    } else {
        let oct = [
            b[at],
            b[at + 1],
            b[at + 2],
            b[at + 3],
            b[at + 4],
            b[at + 5],
            b[at + 6],
            b[at + 7],
            b[at + 8],
            b[at + 9],
            b[at + 10],
            b[at + 11],
            b[at + 12],
            b[at + 13],
            b[at + 14],
            b[at + 15],
        ];
        assert(oct@ =~= w@);
        IpOctets::V6(oct)
    }
}

/// Decode an `RPC_PROXY_REQ` payload back into its fields.  `None` exactly
/// where `parse_proxy_req_spec` has nothing; otherwise every field matches
/// it, with an IPv4 address recovered from its mapped form.
pub fn parse_proxy_req(b: &Vec<u8>) -> (r: Option<ProxyReq>)
    ensures
        (r matches Some(_)) <==> (parse_proxy_req_spec(b@) matches Some(_)),
        r matches Some(p) ==> parse_proxy_req_spec(b@) matches Some(v) && {
            &&& p.flags == v.flags
            &&& p.conn_id == v.conn_id
            &&& ip_wire_bytes(p.client.ip) == v.client_ip
            &&& ((p.client.ip matches IpOctets::V4(_)) <==> is_mapped_v6(v.client_ip))
            &&& p.client.port == v.client_port
            &&& ip_wire_bytes(p.our.ip) == v.our_ip
            &&& ((p.our.ip matches IpOctets::V4(_)) <==> is_mapped_v6(v.our_ip))
            &&& p.our.port == v.our_port
            &&& (match p.tag {
                Some(t) => v.tag == Some(t@),
                None => v.tag matches None,
            })
            &&& p.data@ == v.data
        },
{
    let n = b.len();
    if n < 56 {
        return None;
    }
    let opcode = read_u32_le(b, 0);
    assert(b@.skip(0) =~= b@);
    if opcode != RPC_PROXY_REQ {
        return None;
    }
    let flags = read_u32_le(b, 4);
    let conn_id = read_u64_le(b, 8);
    let client_ip = parse_ip16(b, 16);
    let cp = read_u32_le(b, 32);
    let our_ip = parse_ip16(b, 36);
    let op = read_u32_le(b, 52);
    if cp >= 0x10000 || op >= 0x10000 {
        return None;
    }
    let client = SockAddr { ip: client_ip, port: cp as u16 };
    let our = SockAddr { ip: our_ip, port: op as u16 };
    if flags & 12 == 0 {
        let data = vec_copy_range(b, 56, n);
        assert(data@ =~= b@.skip(56));
        return Some(ProxyReq { flags, conn_id, client, our, tag: None, data });
    }
    if n < 60 {
        return None;
    }
    let el = read_u32_le(b, 56) as usize;
    if el > n - 60 {
        return None;
    }
    if el == 0 {
        let data = vec_copy_range(b, 60, n);
        assert(data@ =~= b@.skip(60));
        return Some(ProxyReq { flags, conn_id, client, our, tag: None, data });
    }
    if el < 8 {
        return None;
    }
    let tl_tag = read_u32_le(b, 60);
    if tl_tag != TL_PROXY_TAG {
        return None;
    }
    let s = Ghost(b@.subrange(64, 60 + el as int));
    assert(forall|i: int| 0 <= i < el - 4 ==> s@[i] == b@[64 + i]);
    let b0 = b[64];
    if b0 < 254 {
        let l = b0 as usize;
        let used = 1 + l + (4 - ((1 + l) % 4)) % 4;
        if used != el - 4 {
            assert(parse_proxy_req_spec(b@) matches None);
            return None;
        }
        let tag = vec_copy_range(b, 65, 65 + l);
        assert(tag@ =~= s@.subrange(1, 1 + l as int));
        let data = vec_copy_range(b, 60 + el, n);
        assert(data@ =~= b@.skip(60 + el as int));
        Some(ProxyReq { flags, conn_id, client, our, tag: Some(tag), data })
    } else if b0 == 254 {
        let l = (b[65] as usize) + 256 * (b[66] as usize) + 65536 * (b[67] as usize);
        let used = 4 + l + (4 - (l % 4)) % 4;
        if used != el - 4 {
            assert(parse_proxy_req_spec(b@) matches None);
            return None;
        }
        let tag = vec_copy_range(b, 68, 68 + l);
        assert(tag@ =~= s@.subrange(4, 4 + l as int));
        let data = vec_copy_range(b, 60 + el, n);
        assert(data@ =~= b@.skip(60 + el as int));
        Some(ProxyReq { flags, conn_id, client, our, tag: Some(tag), data })
    } else {
        None
    }
}

/// Build an `RPC_PROXY_REQ` payload around an opaque client byte block.
pub fn build_proxy_req_payload(
    conn_id: u64,
    client_addr: &SockAddr,
    our_addr: &SockAddr,
    data: &Vec<u8>,
    proxy_tag: Option<&Vec<u8>>,
    proto_flags: u32,
) -> (r: Vec<u8>)
    requires
        (proxy_tag matches Some(t) ==> t@.len() < 0x1000000),
        data@.len() + 0x2000000 <= usize::MAX,
    ensures
        r@ == proxy_req_payload(
            conn_id,
            *client_addr,
            *our_addr,
            data@,
            match proxy_tag {
                Some(t) => Some(t@),
                None => None,
            },
            proto_flags,
        ),
{
    let mut b: Vec<u8> = Vec::new();
    push_u32_le(&mut b, RPC_PROXY_REQ);
    push_u32_le(&mut b, proto_flags);
    push_u64_le(&mut b, conn_id);
    push_ip_wire_bytes(&mut b, &client_addr.ip);
    push_u32_le(&mut b, client_addr.port as u32);
    push_ip_wire_bytes(&mut b, &our_addr.ip);
    push_u32_le(&mut b, our_addr.port as u32);
    if proto_flags & 12 != 0 {
        match proxy_tag {
            Some(tag) => {
                let tl = build_tl_string(tag);
                push_u32_le(&mut b, (4 + tl.len()) as u32);
                push_u32_le(&mut b, TL_PROXY_TAG);
                vec_push_all(&mut b, tl.as_slice());
            },
            None => {
                push_u32_le(&mut b, 0);
            },
        }
    }
    vec_push_all(&mut b, data.as_slice());
    assert(b@ =~= proxy_req_payload(
        conn_id,
        *client_addr,
        *our_addr,
        data@,
        match proxy_tag {
            Some(t) => Some(t@),
            None => None,
        },
        proto_flags,
    ));
    b
}

/// Decoding a TL-encoded string gives back the string, consuming exactly
/// its encoding.
pub proof fn lemma_tl_parse_round_trip(t: Seq<u8>)
    requires
        t.len() < 0x1000000,
    ensures
        tl_parse(tl_string(t)) == Some((t, tl_string(t).len() as int)),
{
    let s = tl_string(t);
    if t.len() < 254 {
        assert(s[0] == t.len() as u8);
        assert((t.len() as u8) < 254);
        let l = s[0] as int;
        assert(l == t.len());
        assert(s.len() == 1 + l + ((4 - ((1 + l) % 4)) % 4));
        assert(s.subrange(1, 1 + l) =~= t);
    } else {
        let x = t.len() as u32;
        assert(s[0] == 254);
        let s1 = u32_le(x)[0];
        let s2 = u32_le(x)[1];
        let s3 = u32_le(x)[2];
        assert(s[1] == s1 && s[2] == s2 && s[3] == s3);
        assert(((x & 0xff) as u8 as u32) + 256 * (((x >> 8) & 0xff) as u8 as u32) + 65536 * (((x
            >> 16) & 0xff) as u8 as u32) == x) by (bit_vector)
            requires
                x < 0x1000000u32,
        ;
        let l = (s1 as int) + 256 * (s2 as int) + 65536 * (s3 as int);
        assert(l == t.len());
        assert(s.len() == 4 + l + ((4 - (l % 4)) % 4));
        assert(s.subrange(4, 4 + l) =~= t);
    }
}

/// Proxy-request encoding symmetry: decoding an encoded request yields the
/// original connection id, addresses, ports, tag and trailing data.
pub proof fn lemma_proxy_req_round_trip(
    conn_id: u64,
    client: SockAddr,
    our: SockAddr,
    data: Seq<u8>,
    tag: Option<Seq<u8>>,
    flags: u32,
)
    requires
        tag matches Some(t) ==> t.len() < 0x1000000 && flags & 12 != 0,
    ensures
        parse_proxy_req_spec(proxy_req_payload(conn_id, client, our, data, tag, flags)) == Some(
            (ProxyReqView {
                flags,
                conn_id,
                client_ip: ip_wire_bytes(client.ip),
                client_port: client.port,
                our_ip: ip_wire_bytes(our.ip),
                our_port: our.port,
                tag,
                data,
            }),
        ),
{
    let pl = proxy_req_payload(conn_id, client, our, data, tag, flags);
    let extras = proxy_req_extras(flags, tag);
    assert(ip_wire_bytes(client.ip).len() == 16);
    assert(ip_wire_bytes(our.ip).len() == 16);
    assert(pl.len() == 56 + extras.len() + data.len());
    lemma_u32_le_round_trip(RPC_PROXY_REQ);
    assert(forall|i: int| 0 <= i < 4 ==> pl[i] == u32_le(RPC_PROXY_REQ)[i]);
    assert(le_to_u32(pl) == le_to_u32(u32_le(RPC_PROXY_REQ)));
    lemma_u32_le_round_trip(flags);
    assert(forall|i: int| 0 <= i < 4 ==> pl.skip(4)[i] == u32_le(flags)[i]);
    assert(le_to_u32(pl.skip(4)) == le_to_u32(u32_le(flags)));
    lemma_u64_le_round_trip(conn_id);
    assert(forall|i: int| 0 <= i < 8 ==> pl.skip(8)[i] == u64_le(conn_id)[i]);
    assert(le_to_u64(pl.skip(8)) == le_to_u64(u64_le(conn_id)));
    assert(pl.subrange(16, 32) =~= ip_wire_bytes(client.ip));
    lemma_u32_le_round_trip(client.port as u32);
    assert(forall|i: int| 0 <= i < 4 ==> pl.skip(32)[i] == u32_le(client.port as u32)[i]);
    assert(le_to_u32(pl.skip(32)) == le_to_u32(u32_le(client.port as u32)));
    assert(pl.subrange(36, 52) =~= ip_wire_bytes(our.ip));
    lemma_u32_le_round_trip(our.port as u32);
    assert(forall|i: int| 0 <= i < 4 ==> pl.skip(52)[i] == u32_le(our.port as u32)[i]);
    assert(le_to_u32(pl.skip(52)) == le_to_u32(u32_le(our.port as u32)));
    assert((client.port as u32) < 0x10000 && (our.port as u32) < 0x10000);
    assert((client.port as u32) as u16 == client.port);
    assert((our.port as u32) as u16 == our.port);
    if flags & 12 == 0 {
        assert(extras =~= Seq::<u8>::empty());
        assert(pl.skip(56) =~= data);
        assert(tag matches None);
    } else {
        match tag {
            None => {
                assert(extras =~= u32_le(0u32));
                lemma_u32_le_round_trip(0);
                assert(forall|i: int| 0 <= i < 4 ==> pl.skip(56)[i] == u32_le(0u32)[i]);
                assert(le_to_u32(pl.skip(56)) == le_to_u32(u32_le(0u32)));
                assert(pl.skip(60) =~= data);
            },
            Some(t) => {
                let tl = tl_string(t);
                assert(tl.len() >= 4);
                assert(tl.len() < 0x1000000 + 8);
                let el = (4 + tl.len()) as u32;
                assert(extras == u32_le(el) + u32_le(TL_PROXY_TAG) + tl);
                lemma_u32_le_round_trip(el);
                assert(forall|i: int| 0 <= i < 4 ==> pl.skip(56)[i] == u32_le(el)[i]);
                assert(le_to_u32(pl.skip(56)) == le_to_u32(u32_le(el)));
                assert(el as int == 4 + tl.len());
                assert(60 + el <= pl.len());
                assert(el >= 8);
                lemma_u32_le_round_trip(TL_PROXY_TAG);
                assert(forall|i: int| 0 <= i < 4 ==> pl.skip(60)[i] == u32_le(TL_PROXY_TAG)[i]);
                assert(le_to_u32(pl.skip(60)) == le_to_u32(u32_le(TL_PROXY_TAG)));
                assert(pl.subrange(64, 60 + el as int) =~= tl);
                lemma_tl_parse_round_trip(t);
                assert(tl_parse(pl.subrange(64, 60 + el as int)) == Some((t, tl.len() as int)));
                assert(tl.len() as int == el as int - 4);
                assert(pl.skip(60 + el as int) =~= data);
            },
        }
    }
}

} // verus!
