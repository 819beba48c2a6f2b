//! Socket addresses as the transport sees them: plain octets and a port.
//!
//! The proxy-request encoder writes every address as 16 bytes of IPv6; an
//! IPv4 address travels in its IPv4-mapped form `00 x 10 || FF FF || octets`.

use vstd::prelude::*;

use crate::bytes_util::vec_push_all;

verus! {

/// An IP address held as its octets.
#[derive(Clone, Copy, Debug)]
pub enum IpOctets {
    V4([u8; 4]),
    V6([u8; 16]),
}

/// A socket address: an IP and a port.
#[derive(Clone, Copy, Debug)]
pub struct SockAddr {
    pub ip: IpOctets,
    pub port: u16,
}

/// The IPv4-mapped IPv6 form of four IPv4 octets.
pub open spec fn mapped_v6(oct: Seq<u8>) -> Seq<u8>
    recommends
        oct.len() == 4,
{
    seq![0u8, 0, 0, 0, 0, 0, 0, 0, 0, 0, 0xff, 0xff, oct[0], oct[1], oct[2], oct[3]]
}

/// Whether 16 address bytes have the IPv4-mapped shape.
pub open spec fn is_mapped_v6(b: Seq<u8>) -> bool
    recommends
        b.len() == 16,
{
    (forall|i: int| 0 <= i < 10 ==> b[i] == 0) && b[10] == 0xff && b[11] == 0xff
}

/// The 16 bytes under which an address goes on the wire.
pub open spec fn ip_wire_bytes(ip: IpOctets) -> Seq<u8> {
    match ip {
        IpOctets::V4(oct) => mapped_v6(oct@),
        IpOctets::V6(oct) => oct@,
    }
}

/// The big-endian 32-bit value of four IPv4 octets.
pub open spec fn v4_u32(oct: Seq<u8>) -> u32
    recommends
        oct.len() == 4,
{
    ((oct[0] as u32) << 24) | ((oct[1] as u32) << 16) | ((oct[2] as u32) << 8) | (oct[3] as u32)
}

/// The 32-bit value the key derivation uses for an address: the IPv4
/// value, the embedded IPv4 of a mapped IPv6 address, and zero for any
/// other IPv6 address.
pub open spec fn ip_u32(ip: IpOctets) -> u32 {
    match ip {
        IpOctets::V4(oct) => v4_u32(oct@),
        IpOctets::V6(oct) => if is_mapped_v6(oct@) {
            v4_u32(oct@.skip(12))
        } else {
            0
        },
    }
}

/// Write four IPv4 octets in their IPv4-mapped IPv6 form.
pub fn ipv4_to_mapped_v6(octets: &[u8; 4]) -> (r: Vec<u8>)
    ensures
        r@ == mapped_v6(octets@),
{
    let mut r: Vec<u8> = Vec::new();
    let mut i: usize = 0;
    while i < 10
        invariant
            i <= 10,
            r@ == Seq::new(i as nat, |j: int| 0u8),
        decreases 10 - i,
    {
        r.push(0);
        i = i + 1;
        assert(r@ =~= Seq::new(i as nat, |j: int| 0u8));
    }
    r.push(0xff);
    r.push(0xff);
    r.push(octets[0]);
    r.push(octets[1]);
    r.push(octets[2]);
    r.push(octets[3]);
    assert(r@ =~= mapped_v6(octets@));
    r
}

/// Append the 16 wire bytes of an address to `v`.
pub fn push_ip_wire_bytes(v: &mut Vec<u8>, ip: &IpOctets)
    requires
        old(v)@.len() + 16 <= usize::MAX,
    ensures
        final(v)@ == old(v)@ + ip_wire_bytes(*ip),
{
    match ip {
        IpOctets::V4(oct) => {
            let m = ipv4_to_mapped_v6(oct);
            vec_push_all(v, m.as_slice());
        },
        IpOctets::V6(oct) => {
            vec_push_all(v, oct.as_slice());
        },
    }
}

/// The 32-bit value the key derivation uses for `addr`'s IP.
pub fn addr_to_ip_u32(addr: &SockAddr) -> (r: u32)
    ensures
        r == ip_u32(addr.ip),
{
    match &addr.ip {
        IpOctets::V4(oct) => {
            ((oct[0] as u32) << 24) | ((oct[1] as u32) << 16) | ((oct[2] as u32) << 8) | (
            oct[3] as u32)
        },
        IpOctets::V6(oct) => {
            let mut mapped = oct[10] == 0xff && oct[11] == 0xff;
            let mut i: usize = 0;
            while i < 10
                invariant
                    i <= 10,
                    mapped == (oct@[10] == 0xff && oct@[11] == 0xff && forall|j: int|
                        0 <= j < i ==> oct@[j] == 0),
                decreases 10 - i,
            {
                if oct[i] != 0 {
                    mapped = false;
                }
                i = i + 1;
            }
            if mapped {
                assert(oct@.skip(12)[0] == oct@[12]);
                assert(oct@.skip(12)[1] == oct@[13]);
                assert(oct@.skip(12)[2] == oct@[14]);
                assert(oct@.skip(12)[3] == oct@[15]);
                ((oct[12] as u32) << 24) | ((oct[13] as u32) << 16) | ((oct[14] as u32) << 8) | (
                oct[15] as u32)
            } else {
                0
            }
        },
    }
}

} // verus!
